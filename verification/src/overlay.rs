//! The vocabulary between the pipeline and its front-ends: what the overlay
//! shows, the commands it takes, and the events that the tray and the hotkey
//! listener raise.

use vstd::prelude::*;
use std::sync::mpsc::Sender;
use crate::error::SetupError;
use crate::text::same_text;

verus! {

/// What the overlay window displays.
#[derive(Debug, PartialEq, Eq)]
pub enum OverlayState {
    Hidden,
    Listening,
    Transcribing,
    Result(String),
}

/// A command to the overlay window.
#[derive(Debug, PartialEq, Eq)]
pub enum OverlayCommand {
    Show(OverlayState),
    Hide,
    Update(OverlayState),
}

/// What a front-end asks of the service.
#[derive(Debug, Clone, Copy, PartialEq, Eq)]
pub enum AppEvent {
    StartRecording,
    StopRecording,
    OpenSettings,
    Quit,
}

/// What choosing the menu entry `id` asks for; nothing for an entry that
/// the service does not know.
pub open spec fn menu_event_of(id: Seq<char>) -> Option<AppEvent> {
    if id == "transcribe"@ {
        Some(AppEvent::StartRecording)
    } else if id == "settings"@ {
        Some(AppEvent::OpenSettings)
    } else if id == "quit"@ {
        Some(AppEvent::Quit)
    } else {
        None
    }
}

impl AppEvent {
    /// What choosing the tray-menu entry `id` asks for.
    pub fn from_menu_id(id: &str) -> (event: Option<AppEvent>)
        ensures
            event == menu_event_of(id@),
    {
        if same_text(id, "transcribe") {
            Some(AppEvent::StartRecording)
        } else if same_text(id, "settings") {
            Some(AppEvent::OpenSettings)
        } else if same_text(id, "quit") {
            Some(AppEvent::Quit)
        } else {
            None
        }
    }
}

/// The mathematical value of an [`OverlayState`].
pub ghost enum OverlayStateView {
    Hidden,
    Listening,
    Transcribing,
    Result(Seq<char>),
}

/// The mathematical value of an [`OverlayCommand`].
pub ghost enum OverlayCommandView {
    Show(OverlayStateView),
    Hide,
    Update(OverlayStateView),
}

impl View for OverlayState {
    type V = OverlayStateView;

    open spec fn view(&self) -> OverlayStateView {
        match self {
            OverlayState::Hidden => OverlayStateView::Hidden,
            OverlayState::Listening => OverlayStateView::Listening,
            OverlayState::Transcribing => OverlayStateView::Transcribing,
            OverlayState::Result(text) => OverlayStateView::Result(text@),
        }
    }
}

impl View for OverlayCommand {
    type V = OverlayCommandView;

    open spec fn view(&self) -> OverlayCommandView {
        match self {
            OverlayCommand::Show(state) => OverlayCommandView::Show(state@),
            OverlayCommand::Hide => OverlayCommandView::Hide,
            OverlayCommand::Update(state) => OverlayCommandView::Update(state@),
        }
    }
}

/// Declares `std::sync::mpsc::Sender`, the sending half of a channel, as a
/// type whose values are carried and never looked into.
#[verifier::external_type_specification]
#[verifier::external_body]
#[verifier::reject_recursive_types(T)]
pub struct ExSender<T>(Sender<T>);

/// Calls `std::sync::mpsc::channel` and keeps the sending half; the receiving
/// half is dropped at once. Nothing is claimed of the sender.
#[verifier::external_body]
fn detached_sender() -> (sender: Sender<OverlayCommand>) {
    let (sender, _receiver) = std::sync::mpsc::channel::<OverlayCommand>();
    sender
}

/// A handle on the overlay window.
///
/// No window is attached yet: the handle owns the sending half of a command
/// channel whose receiver is gone, and every command is accepted and dropped.
pub struct Overlay {
    sender: Sender<OverlayCommand>,
}

impl Overlay {
    /// Makes a handle. Always succeeds.
    pub fn new() -> (overlay: Result<Self, SetupError>)
        ensures
            overlay is Ok,
    {
        Ok(Overlay { sender: detached_sender() })
    }

    /// Accepts a request to show `state`. Always succeeds; nothing is shown.
    pub fn show(&self, _state: OverlayState) -> (done: Result<(), SetupError>)
        ensures
            done is Ok,
    {
        Ok(())
    }

    /// Accepts a request to hide the window. Always succeeds.
    pub fn hide_overlay(&self) -> (done: Result<(), SetupError>)
        ensures
            done is Ok,
    {
        Ok(())
    }

    /// Accepts a request to change what is shown to `state`. Always succeeds;
    /// nothing is shown.
    pub fn update(&self, _state: OverlayState) -> (done: Result<(), SetupError>)
        ensures
            done is Ok,
    {
        Ok(())
    }
}

/// Sets up the tray icon that raises events on `_event_tx`.
///
/// The tray is switched off: nothing is installed, no event will ever be
/// sent, and the call always succeeds.
pub fn setup_tray(_event_tx: Sender<AppEvent>) -> (done: Result<(), SetupError>)
    ensures
        done is Ok,
{
    Ok(())
}

/// Registers the global shortcut `_shortcut`, which raises events on
/// `_event_tx`.
///
/// Global shortcuts are switched off: nothing is registered, no event will
/// ever be sent, and the call always succeeds.
pub fn setup_hotkeys(_event_tx: Sender<AppEvent>, _shortcut: &str) -> (done: Result<
    (),
    SetupError,
>)
    ensures
        done is Ok,
{
    Ok(())
}

} // verus!
