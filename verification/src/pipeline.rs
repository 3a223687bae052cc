//! The transcription pipeline as a state machine.
//!
//! One run goes capture, transcribe, type. The machine never touches a
//! device: each step hands out the actions to perform, and whoever performs
//! them reports what happened as an event. A trigger is admitted only when
//! no run is in flight, so at most one run ever holds the audio device.

use vstd::prelude::*;
use vstd::string::*;
use crate::config::Config;
use crate::error::{Busy, PipelineError, PipelineErrorView};
use crate::overlay::{
    AppEvent, OverlayCommand, OverlayCommandView, OverlayState, OverlayStateView,
};
use crate::state::{AppState, StateView};
use crate::status::{AppStatus, Phase, PhaseView, StatusView};

verus! {

/// What the performer of a run reports back. `S` is the type of one sample.
#[derive(Debug, PartialEq)]
pub enum Event<S> {
    /// The capture ended and delivered these samples.
    Captured(Vec<S>),
    /// The speech engine recognised this text.
    Transcribed(String),
    /// The text was typed into the focused application.
    Typed,
    /// The step in progress failed.
    Failed(PipelineError),
}

/// What the machine asks to be done.
#[derive(Debug, PartialEq)]
pub enum Action<S> {
    /// Move the overlay window to this screen position.
    PlaceOverlay { x: i32, y: i32 },
    /// Pass a command to the overlay window.
    Overlay(OverlayCommand),
    /// Tell every observer; nobody waits for them.
    Notify { event: String, payload: String },
    /// Open the input device and record for so many seconds, then report
    /// `Captured` or `Failed`.
    Capture { seconds: u64 },
    /// Find the model file, run the speech engine on the samples, then report
    /// `Transcribed` or `Failed`.
    Transcribe { samples: Vec<S>, model_file: String, language: String },
    /// Type the text into the focused application, then report `Typed` or
    /// `Failed`.
    TypeText(String),
    /// Keep the result visible for so many milliseconds, then hide the
    /// overlay window. Nothing is reported.
    HideOverlayAfter { millis: u64 },
}

/// What the run in flight is waiting for.
#[derive(Debug, PartialEq, Eq)]
pub enum Stage {
    /// No run is in flight.
    Standby,
    /// The capture is running.
    Capturing,
    /// The speech engine is running.
    Recognizing,
    /// This text is being typed.
    Typing(String),
}

pub ghost enum EventView<S> {
    Captured(Seq<S>),
    Transcribed(Seq<char>),
    Typed,
    Failed(PipelineErrorView),
}

pub ghost enum ActionView<S> {
    PlaceOverlay { x: i32, y: i32 },
    Overlay(OverlayCommandView),
    Notify { event: Seq<char>, payload: Seq<char> },
    Capture { seconds: u64 },
    Transcribe { samples: Seq<S>, model_file: Seq<char>, language: Seq<char> },
    TypeText(Seq<char>),
    HideOverlayAfter { millis: u64 },
}

pub ghost enum StageView {
    Standby,
    Capturing,
    Recognizing,
    Typing(Seq<char>),
}

impl<S> View for Event<S> {
    type V = EventView<S>;

    open spec fn view(&self) -> EventView<S> {
        match self {
            Event::Captured(samples) => EventView::Captured(samples@),
            Event::Transcribed(text) => EventView::Transcribed(text@),
            Event::Typed => EventView::Typed,
            Event::Failed(error) => EventView::Failed(error@),
        }
    }
}

impl<S> View for Action<S> {
    type V = ActionView<S>;

    open spec fn view(&self) -> ActionView<S> {
        match self {
            Action::PlaceOverlay { x, y } => ActionView::PlaceOverlay { x: *x, y: *y },
            Action::Overlay(command) => ActionView::Overlay(command@),
            Action::Notify { event, payload } => ActionView::Notify {
                event: event@,
                payload: payload@,
            },
            Action::Capture { seconds } => ActionView::Capture { seconds: *seconds },
            Action::Transcribe { samples, model_file, language } => ActionView::Transcribe {
                samples: samples@,
                model_file: model_file@,
                language: language@,
            },
            Action::TypeText(text) => ActionView::TypeText(text@),
            Action::HideOverlayAfter { millis } => ActionView::HideOverlayAfter { millis: *millis },
        }
    }
}

impl View for Stage {
    type V = StageView;

    open spec fn view(&self) -> StageView {
        match self {
            Stage::Standby => StageView::Standby,
            Stage::Capturing => StageView::Capturing,
            Stage::Recognizing => StageView::Recognizing,
            Stage::Typing(text) => StageView::Typing(text@),
        }
    }
}

/// The values of a list of actions, in order.
pub open spec fn actions_view<S>(actions: Seq<Action<S>>) -> Seq<ActionView<S>> {
    actions.map_values(|action: Action<S>| action@)
}

/// A notification as an action.
pub open spec fn notice<S>(event: Seq<char>, payload: Seq<char>) -> ActionView<S> {
    ActionView::Notify { event, payload }
}

/// Where the cursor is taken to be when the platform cannot tell.
pub open spec fn fallback_cursor() -> (i32, i32) {
    (100i32, 100i32)
}

/// `value - by`, stopping at the least `i32`.
pub open spec fn lowered(value: i32, by: i32) -> i32 {
    if value - by < i32::MIN {
        i32::MIN
    } else {
        (value - by) as i32
    }
}

/// Where the overlay window goes for a cursor position: 200 to the left of
/// the cursor and 75 above it, as far as the coordinates reach.
pub open spec fn overlay_anchor(cursor: Option<(i32, i32)>) -> (i32, i32) {
    let at = match cursor {
        Some(position) => position,
        None => fallback_cursor(),
    };
    (lowered(at.0, 200), lowered(at.1, 75))
}

/// What is announced when a run fails.
pub open spec fn failure_actions<S>(error: PipelineErrorView) -> Seq<ActionView<S>> {
    seq![
        notice("status-update"@, "Error: "@ + error.message()),
        notice("transcription-error"@, error.label() + error.message()),
        ActionView::Overlay(OverlayCommandView::Hide),
    ]
}

/// What is announced when a run completes with `text`.
pub open spec fn completion_actions<S>(text: Seq<char>, hold_millis: u64) -> Seq<ActionView<S>> {
    seq![
        notice("transcription-update"@, text),
        notice("status-update"@, "Ready"@),
        notice("transcription-complete"@, text),
        ActionView::Overlay(OverlayCommandView::Show(OverlayStateView::Result(text))),
        ActionView::HideOverlayAfter { millis: hold_millis },
    ]
}

/// The mathematical value of an [`Orchestrator`].
pub ghost struct PipelineView<S> {
    pub state: StateView<S>,
    pub stage: StageView,
    pub record_seconds: u64,
    pub hold_millis: u64,
}

impl StageView {
    /// How many reports the run still needs at most before it is over.
    pub open spec fn steps_left(self) -> nat {
        match self {
            StageView::Standby => 0,
            StageView::Typing(_) => 1,
            StageView::Recognizing => 2,
            StageView::Capturing => 3,
        }
    }
}

impl<S> PipelineView<S> {
    /// The stage and the phase agree, and no audio lies about between steps.
    pub open spec fn wf(self) -> bool {
        &&& self.state.audio is None
        &&& match self.stage {
            StageView::Standby => !self.state.status.phase.is_busy(),
            StageView::Capturing => self.state.status.phase is Recording,
            StageView::Recognizing => self.state.status.phase is Transcribing,
            StageView::Typing(_) => self.state.status.phase is Transcribing,
        }
    }

    /// The same machine with another status and stage.
    pub open spec fn moved(self, status: StatusView, stage: StageView) -> PipelineView<S> {
        PipelineView {
            state: self.state.with_status(status),
            stage,
            record_seconds: self.record_seconds,
            hold_millis: self.hold_millis,
        }
    }

    /// Whether `event` is the report that the stage is waiting for.
    pub open spec fn accepts(self, event: EventView<S>) -> bool {
        match (self.stage, event) {
            (StageView::Capturing, EventView::Captured(_)) => true,
            (StageView::Capturing, EventView::Failed(_)) => true,
            (StageView::Recognizing, EventView::Transcribed(_)) => true,
            (StageView::Recognizing, EventView::Failed(_)) => true,
            (StageView::Typing(_), EventView::Typed) => true,
            (StageView::Typing(_), EventView::Failed(_)) => true,
            _ => false,
        }
    }

    /// The machine after an admitted trigger.
    pub open spec fn admitted(self) -> PipelineView<S> {
        self.moved(self.state.status.with_phase(PhaseView::Recording), StageView::Capturing)
    }

    /// What an admitted trigger asks for.
    pub open spec fn admission_actions(self, cursor: Option<(i32, i32)>) -> Seq<ActionView<S>> {
        seq![
            ActionView::PlaceOverlay { x: overlay_anchor(cursor).0, y: overlay_anchor(cursor).1 },
            ActionView::Overlay(OverlayCommandView::Show(OverlayStateView::Listening)),
            notice("status-update"@, "Recording..."@),
            ActionView::Capture { seconds: self.record_seconds },
        ]
    }

    /// The machine after `event`. A report that the stage is not waiting
    /// for changes nothing.
    pub open spec fn step(self, event: EventView<S>) -> PipelineView<S> {
        match (self.stage, event) {
            (StageView::Capturing, EventView::Captured(_)) => self.moved(
                self.state.status.with_phase(PhaseView::Transcribing),
                StageView::Recognizing,
            ),
            (StageView::Recognizing, EventView::Transcribed(text)) => self.moved(
                self.state.status,
                StageView::Typing(text),
            ),
            (StageView::Typing(text), EventView::Typed) => self.moved(
                self.state.status.completed(text),
                StageView::Standby,
            ),
            (StageView::Typing(text), EventView::Failed(_)) => self.moved(
                self.state.status.completed(text),
                StageView::Standby,
            ),
            (StageView::Capturing, EventView::Failed(error)) => self.moved(
                self.state.status.failed(error.message()),
                StageView::Standby,
            ),
            (StageView::Recognizing, EventView::Failed(error)) => self.moved(
                self.state.status.failed(error.message()),
                StageView::Standby,
            ),
            _ => self,
        }
    }

    /// What the machine asks for after `event`.
    pub open spec fn step_actions(self, event: EventView<S>) -> Seq<ActionView<S>> {
        match (self.stage, event) {
            (StageView::Capturing, EventView::Captured(samples)) => seq![
                notice("status-update"@, "Transcribing..."@),
                ActionView::Overlay(OverlayCommandView::Update(OverlayStateView::Transcribing)),
                ActionView::Transcribe {
                    samples,
                    model_file: crate::config::model_file_name_of(
                        self.state.config.model.local_model,
                    ),
                    language: self.state.config.language,
                },
            ],
            (StageView::Recognizing, EventView::Transcribed(text)) => seq![
                ActionView::TypeText(text),
            ],
            (StageView::Typing(text), EventView::Typed) => completion_actions(
                text,
                self.hold_millis,
            ),
            (StageView::Typing(text), EventView::Failed(error)) => seq![
                notice::<S>("status-update"@, "Error typing: "@ + error.message()),
            ] + completion_actions(text, self.hold_millis),
            (StageView::Capturing, EventView::Failed(error)) => failure_actions(error),
            (StageView::Recognizing, EventView::Failed(error)) => failure_actions(error),
            _ => Seq::empty(),
        }
    }

    /// The machine after its performer is gone: a run still in flight is
    /// recorded as failed, and nothing else changes.
    pub open spec fn finished(self) -> PipelineView<S> {
        if self.stage is Standby {
            self
        } else {
            self.moved(self.state.status.failed(lost_run_message()), StageView::Standby)
        }
    }

    /// What is announced when the performer is gone.
    pub open spec fn finish_actions(self) -> Seq<ActionView<S>> {
        if self.stage is Standby {
            Seq::empty()
        } else {
            seq![
                notice("status-update"@, "Error: "@ + lost_run_message()),
                notice("transcription-error"@, lost_run_message()),
                ActionView::Overlay(OverlayCommandView::Hide),
            ]
        }
    }
}

/// The error recorded for a run whose performer ended without reporting.
pub open spec fn lost_run_message() -> Seq<char> {
    "run ended unexpectedly"@
}

/// How long the window front-end records for one trigger, in seconds.
pub const RECORD_SECONDS: u64 = 5;

/// How long the window front-end keeps a result visible, in milliseconds.
pub const RESULT_HOLD_MILLIS: u64 = 1000;

/// `value - by`, stopping at the least `i32`.
fn lower(value: i32, by: i32) -> (out: i32)
    requires
        0 <= by,
    ensures
        out == lowered(value, by),
{
    if value < i32::MIN + by {
        i32::MIN
    } else {
        value - by
    }
}

/// Where to put the overlay window, given the cursor position if the
/// platform could tell it.
pub fn overlay_position(cursor: Option<(i32, i32)>) -> (at: (i32, i32))
    ensures
        at == overlay_anchor(cursor),
{
    let (x, y) = match cursor {
        Some(position) => position,
        None => (100, 100),
    };
    (lower(x, 200), lower(y, 75))
}

/// `prefix` followed by `text`.
fn prefixed(prefix: &str, text: &str) -> (joined: String)
    ensures
        joined@ == prefix@ + text@,
{
    let mut joined = String::from_str(prefix);
    joined.append(text);
    joined
}

/// A notification as an action.
fn notify<S>(event: &str, payload: String) -> (action: Action<S>)
    ensures
        action@ == notice::<S>(event@, payload@),
{
    Action::Notify { event: String::from_str(event), payload }
}

/// The actions that announce a failed run.
fn announce_failure<S>(error: &PipelineError) -> (actions: Vec<Action<S>>)
    ensures
        actions_view(actions@) == failure_actions::<S>(error@),
{
    let message = error.message();
    let label = error.label();
    let mut actions: Vec<Action<S>> = Vec::new();
    actions.push(notify("status-update", prefixed("Error: ", message.as_str())));
    actions.push(notify("transcription-error", prefixed(label.as_str(), message.as_str())));
    actions.push(Action::Overlay(OverlayCommand::Hide));
    assert(actions_view(actions@) =~= failure_actions::<S>(error@));
    actions
}

/// Appends the actions that announce a completed run.
fn announce_completion<S>(actions: &mut Vec<Action<S>>, text: &String, hold_millis: u64)
    ensures
        actions_view(final(actions)@) == actions_view(old(actions)@) + completion_actions::<S>(
            text@,
            hold_millis,
        ),
{
    actions.push(notify("transcription-update", text.clone()));
    actions.push(notify("status-update", String::from_str("Ready")));
    actions.push(notify("transcription-complete", text.clone()));
    actions.push(Action::Overlay(OverlayCommand::Show(OverlayState::Result(text.clone()))));
    actions.push(Action::HideOverlayAfter { millis: hold_millis });
    assert(actions_view(actions@) =~= actions_view(old(actions)@) + completion_actions::<S>(
        text@,
        hold_millis,
    ));
}

/// The pipeline: the status store and the stage of the run in flight.
pub struct Orchestrator<S> {
    state: AppState<S>,
    stage: Stage,
    record_seconds: u64,
    hold_millis: u64,
}

impl<S> View for Orchestrator<S> {
    type V = PipelineView<S>;

    closed spec fn view(&self) -> PipelineView<S> {
        PipelineView {
            state: self.state@,
            stage: self.stage@,
            record_seconds: self.record_seconds,
            hold_millis: self.hold_millis,
        }
    }
}

impl<S> Orchestrator<S> {
    /// A pipeline at rest: idle, nothing transcribed yet, `config` in force.
    /// Each run records for `record_seconds` and keeps its result visible
    /// for `hold_millis`.
    pub fn new(config: Config, record_seconds: u64, hold_millis: u64) -> (machine: Self)
        ensures
            machine@.wf(),
            machine@ == (PipelineView::<S> {
                state: StateView { status: StatusView::initial(), config: config@, audio: None },
                stage: StageView::Standby,
                record_seconds,
                hold_millis,
            }),
    {
        Orchestrator { state: AppState::new(config), stage: Stage::Standby, record_seconds, hold_millis }
    }

    /// A copy of the status snapshot.
    pub fn read_status(&self) -> (status: AppStatus)
        ensures
            status@ == self@.state.status,
    {
        self.state.get_status()
    }

    /// A copy of the settings in force.
    pub fn get_config(&self) -> (config: Config)
        ensures
            config@ == self@.state.config,
    {
        self.state.get_config()
    }

    /// Puts `config` in force. A run in flight goes on; its next step reads
    /// the new settings.
    pub fn update_config(&mut self, config: Config)
        ensures
            final(self)@ == (PipelineView { state: old(self)@.state.with_config(config@), ..old(self)@ }),
            old(self)@.wf() ==> final(self)@.wf(),
    {
        self.state.update_config(config);
    }

    /// Whether a run is in flight.
    pub fn in_flight(&self) -> (running: bool)
        ensures
            running == !(self@.stage is Standby),
    {
        match &self.stage {
            Stage::Standby => false,
            _ => true,
        }
    }

    /// Asks for a run. `cursor` is the cursor position, if the platform
    /// could tell it.
    ///
    /// While a run is in flight the answer is `Busy` and nothing changes:
    /// triggers are dropped, never queued. Otherwise the phase becomes
    /// `Recording`, an earlier error is forgotten, and the actions that
    /// start the capture are handed out.
    pub fn trigger(&mut self, cursor: Option<(i32, i32)>) -> (admitted: Result<Vec<Action<S>>, Busy>)
        requires
            old(self)@.wf(),
        ensures
            final(self)@.wf(),
            old(self)@.state.status.phase.is_busy() ==> admitted is Err && final(self)@ == old(
                self,
            )@,
            !old(self)@.state.status.phase.is_busy() ==> {
                &&& admitted matches Ok(actions)
                &&& actions_view(actions@) == old(self)@.admission_actions(cursor)
                &&& final(self)@ == old(self)@.admitted()
            },
    {
        if self.state.is_busy() {
            return Err(Busy);
        }
        let (x, y) = overlay_position(cursor);
        self.state.set_phase(Phase::Recording);
        self.stage = Stage::Capturing;
        let mut actions: Vec<Action<S>> = Vec::new();
        actions.push(Action::PlaceOverlay { x, y });
        actions.push(Action::Overlay(OverlayCommand::Show(OverlayState::Listening)));
        actions.push(notify("status-update", String::from_str("Recording...")));
        actions.push(Action::Capture { seconds: self.record_seconds });
        assert(actions_view(actions@) =~= old(self)@.admission_actions(cursor));
        Ok(actions)
    }

    /// Takes the report of the step in progress and moves the run on.
    ///
    /// A capture that ends well leads to transcription, a transcription to
    /// typing, and typing to completion; a failure of capture or
    /// transcription ends the run in `Error`; a failure of typing is
    /// announced and the run still completes with its text. A report that
    /// the stage is not waiting for changes nothing and asks for nothing.
    pub fn advance(&mut self, event: Event<S>) -> (actions: Vec<Action<S>>)
        requires
            old(self)@.wf(),
        ensures
            final(self)@.wf(),
            final(self)@ == old(self)@.step(event@),
            actions_view(actions@) == old(self)@.step_actions(event@),
    {
        let mut stage = Stage::Standby;
        core::mem::swap(&mut self.stage, &mut stage);
        match stage {
            Stage::Standby => {
                let actions: Vec<Action<S>> = Vec::new();
                assert(actions_view(actions@) =~= Seq::empty());
                actions
            },
            Stage::Capturing => match event {
                Event::Captured(samples) => {
                    self.state.store_audio(samples);
                    self.state.set_phase(Phase::Transcribing);
                    let samples = match self.state.take_audio() {
                        Some(samples) => samples,
                        None => Vec::new(),
                    };
                    self.stage = Stage::Recognizing;
                    let config = self.state.get_config();
                    let model_file = config.model_file_name();
                    let mut actions: Vec<Action<S>> = Vec::new();
                    actions.push(notify("status-update", String::from_str("Transcribing...")));
                    actions.push(Action::Overlay(OverlayCommand::Update(OverlayState::Transcribing)));
                    actions.push(Action::Transcribe { samples, model_file, language: config.language });
                    assert(actions_view(actions@) =~= old(self)@.step_actions(event@));
                    actions
                },
                Event::Failed(error) => self.abort(&error),
                _ => {
                    self.stage = Stage::Capturing;
                    let actions: Vec<Action<S>> = Vec::new();
                    assert(actions_view(actions@) =~= Seq::empty());
                    actions
                },
            },
            Stage::Recognizing => match event {
                Event::Transcribed(text) => {
                    let mut actions: Vec<Action<S>> = Vec::new();
                    actions.push(Action::TypeText(text.clone()));
                    self.stage = Stage::Typing(text);
                    assert(actions_view(actions@) =~= old(self)@.step_actions(event@));
                    actions
                },
                Event::Failed(error) => self.abort(&error),
                _ => {
                    self.stage = Stage::Recognizing;
                    let actions: Vec<Action<S>> = Vec::new();
                    assert(actions_view(actions@) =~= Seq::empty());
                    actions
                },
            },
            Stage::Typing(text) => match event {
                Event::Typed => {
                    let mut actions: Vec<Action<S>> = Vec::new();
                    assert(actions_view(actions@) =~= Seq::empty());
                    announce_completion(&mut actions, &text, self.hold_millis);
                    self.state.complete(text);
                    assert(actions_view(actions@) =~= old(self)@.step_actions(event@));
                    actions
                },
                Event::Failed(error) => {
                    let message = error.message();
                    let mut actions: Vec<Action<S>> = Vec::new();
                    actions.push(notify("status-update", prefixed("Error typing: ", message.as_str())));
                    assert(actions_view(actions@) =~= seq![
                        notice::<S>("status-update"@, "Error typing: "@ + error@.message()),
                    ]);
                    announce_completion(&mut actions, &text, self.hold_millis);
                    self.state.complete(text);
                    actions
                },
                _ => {
                    self.stage = Stage::Typing(text);
                    let actions: Vec<Action<S>> = Vec::new();
                    assert(actions_view(actions@) =~= Seq::empty());
                    actions
                },
            },
        }
    }

    /// Ends a run in `Error`; the stage is already back at standby.
    fn abort(&mut self, error: &PipelineError) -> (actions: Vec<Action<S>>)
        requires
            old(self)@.stage is Standby,
        ensures
            final(self)@ == old(self)@.moved(
                old(self)@.state.status.failed(error@.message()),
                StageView::Standby,
            ),
            actions_view(actions@) == failure_actions::<S>(error@),
    {
        self.state.fail(error.message());
        announce_failure(error)
    }

    /// The finalizer: call it when the performer of a run has returned,
    /// however it returned.
    ///
    /// A run that is still in flight then is recorded as failed, so that the
    /// phase is never left in `Recording` or `Transcribing`; a pipeline at
    /// rest is left as it is.
    pub fn finish(&mut self) -> (actions: Vec<Action<S>>)
        requires
            old(self)@.wf(),
        ensures
            final(self)@.wf(),
            final(self)@ == old(self)@.finished(),
            actions_view(actions@) == old(self)@.finish_actions(),
            !final(self)@.state.status.phase.is_busy(),
    {
        if !self.in_flight() {
            let actions: Vec<Action<S>> = Vec::new();
            assert(actions_view(actions@) =~= Seq::empty());
            return actions;
        }
        self.stage = Stage::Standby;
        self.state.fail(String::from_str("run ended unexpectedly"));
        let mut actions: Vec<Action<S>> = Vec::new();
        actions.push(notify("status-update", prefixed("Error: ", "run ended unexpectedly")));
        actions.push(notify("transcription-error", String::from_str("run ended unexpectedly")));
        actions.push(Action::Overlay(OverlayCommand::Hide));
        assert(actions_view(actions@) =~= old(self)@.finish_actions());
        actions
    }
}

/// What the service does about a front-end event.
#[derive(Debug, PartialEq)]
pub enum Reaction<S> {
    /// A run was admitted; these actions start it.
    Run(Vec<Action<S>>),
    /// A run is in flight; the trigger was dropped.
    Rejected,
    /// Nothing is to be done.
    Nothing,
    /// The settings are to be shown.
    ShowSettings,
    /// The service is to end.
    Exit,
}

pub ghost enum ReactionView<S> {
    Run(Seq<ActionView<S>>),
    Rejected,
    Nothing,
    ShowSettings,
    Exit,
}

impl<S> View for Reaction<S> {
    type V = ReactionView<S>;

    open spec fn view(&self) -> ReactionView<S> {
        match self {
            Reaction::Run(actions) => ReactionView::Run(actions_view(actions@)),
            Reaction::Rejected => ReactionView::Rejected,
            Reaction::Nothing => ReactionView::Nothing,
            Reaction::ShowSettings => ReactionView::ShowSettings,
            Reaction::Exit => ReactionView::Exit,
        }
    }
}

impl<S> PipelineView<S> {
    /// What the service does about `event`.
    pub open spec fn reaction(self, event: AppEvent, cursor: Option<(i32, i32)>) -> ReactionView<S> {
        match event {
            AppEvent::StartRecording => if self.state.status.phase.is_busy() {
                ReactionView::Rejected
            } else {
                ReactionView::Run(self.admission_actions(cursor))
            },
            AppEvent::StopRecording => ReactionView::Nothing,
            AppEvent::OpenSettings => ReactionView::ShowSettings,
            AppEvent::Quit => ReactionView::Exit,
        }
    }

    /// The machine after the front-end event `event`.
    pub open spec fn reacted(self, event: AppEvent) -> PipelineView<S> {
        if event is StartRecording && !self.state.status.phase.is_busy() {
            self.admitted()
        } else {
            self
        }
    }
}

impl<S> Orchestrator<S> {
    /// Takes an event from a front-end. A request to record is a trigger;
    /// a request to stop changes nothing, since a fixed-length recording
    /// runs to its end; the other two are handed back for the caller to act on.
    pub fn react(&mut self, event: AppEvent, cursor: Option<(i32, i32)>) -> (reaction: Reaction<S>)
        requires
            old(self)@.wf(),
        ensures
            final(self)@.wf(),
            final(self)@ == old(self)@.reacted(event),
            reaction@ == old(self)@.reaction(event, cursor),
    {
        match event {
            AppEvent::StartRecording => match self.trigger(cursor) {
                Ok(actions) => Reaction::Run(actions),
                Err(_) => Reaction::Rejected,
            },
            AppEvent::StopRecording => Reaction::Nothing,
            AppEvent::OpenSettings => Reaction::ShowSettings,
            AppEvent::Quit => Reaction::Exit,
        }
    }
}

/// The machine after a sequence of reports, taken in order.
pub open spec fn run<S>(start: PipelineView<S>, events: Seq<EventView<S>>) -> PipelineView<S>
    decreases events.len(),
{
    if events.len() == 0 {
        start
    } else {
        run(start, events.drop_last()).step(events.last())
    }
}

/// A pipeline at rest is never in `Recording` or `Transcribing`: its phase
/// is `Idle` or `Error`.
pub proof fn lemma_rest_is_idle_or_error<S>(machine: PipelineView<S>)
    requires
        machine.wf(),
        machine.stage is Standby,
    ensures
        machine.state.status.phase is Idle || machine.state.status.phase is Error,
{
}

/// A trigger during a run is turned away whatever the stage: a machine with
/// a run in flight is busy.
pub proof fn lemma_in_flight_is_busy<S>(machine: PipelineView<S>)
    requires
        machine.wf(),
    ensures
        machine.state.status.phase.is_busy() <==> !(machine.stage is Standby),
{
}

/// An admitted trigger starts a run in `Recording`, keeps the last result
/// and forgets an earlier error.
pub proof fn lemma_admission<S>(machine: PipelineView<S>)
    requires
        machine.wf(),
        !machine.state.status.phase.is_busy(),
    ensures
        machine.admitted().wf(),
        machine.admitted().stage is Capturing,
        machine.admitted().state.status.phase is Recording,
        machine.admitted().state.status.last_result == machine.state.status.last_result,
{
}

/// Every report leaves the stage and the phase in agreement.
pub proof fn lemma_step_keeps_wf<S>(machine: PipelineView<S>, event: EventView<S>)
    requires
        machine.wf(),
    ensures
        machine.step(event).wf(),
{
}

/// A report that the stage is waiting for brings the run strictly nearer to
/// its end; any other report changes nothing and asks for nothing.
pub proof fn lemma_step_progress<S>(machine: PipelineView<S>, event: EventView<S>)
    ensures
        machine.accepts(event) ==> machine.step(event).stage.steps_left()
            < machine.stage.steps_left(),
        !machine.accepts(event) ==> machine.step(event) == machine && machine.step_actions(event)
            == Seq::<ActionView<S>>::empty(),
{
}

/// A failed capture or transcription ends the run: the phase is the error's
/// message and the last result is the one from before.
pub proof fn lemma_failure_ends_run<S>(machine: PipelineView<S>, error: PipelineErrorView)
    requires
        machine.stage is Capturing || machine.stage is Recognizing,
    ensures
        machine.step(EventView::Failed(error)).stage is Standby,
        machine.step(EventView::Failed(error)).state.status == (StatusView {
            phase: PhaseView::Error(error.message()),
            last_result: machine.state.status.last_result,
        }),
{
}

/// Once text is recognised the run completes with it, whether typing it
/// worked or not.
pub proof fn lemma_typing_outcome_is_completion<S>(
    machine: PipelineView<S>,
    text: Seq<char>,
    error: PipelineErrorView,
)
    requires
        machine.stage == StageView::Typing(text),
    ensures
        machine.step(EventView::Typed).state.status == (StatusView {
            phase: PhaseView::Idle,
            last_result: Some(text),
        }),
        machine.step(EventView::Failed(error)).state.status == machine.step(
            EventView::Typed,
        ).state.status,
        machine.step(EventView::Failed(error)).stage is Standby,
        machine.step(EventView::Typed).stage is Standby,
{
}

/// Whatever is reported, in whatever order, the stage and the phase stay in
/// agreement and the run never moves backwards.
pub proof fn lemma_run_keeps_wf<S>(start: PipelineView<S>, events: Seq<EventView<S>>)
    requires
        start.wf(),
    ensures
        run(start, events).wf(),
        run(start, events).stage.steps_left() <= start.stage.steps_left(),
    decreases events.len(),
{
    if events.len() > 0 {
        lemma_run_keeps_wf(start, events.drop_last());
        lemma_step_keeps_wf(run(start, events.drop_last()), events.last());
        lemma_step_progress(run(start, events.drop_last()), events.last());
    }
}

/// After any sequence of reports, a pipeline that is at rest again has a
/// phase of `Idle` or `Error`, and the finalizer brings every pipeline to
/// rest.
pub proof fn lemma_run_resolves<S>(start: PipelineView<S>, events: Seq<EventView<S>>)
    requires
        start.wf(),
    ensures
        run(start, events).stage is Standby ==> !run(start, events).state.status.phase.is_busy(),
        run(start, events).finished().wf(),
        run(start, events).finished().stage is Standby,
        !run(start, events).finished().state.status.phase.is_busy(),
{
    lemma_run_keeps_wf(start, events);
}

/// No run takes more than three reports: after three reports that were
/// each waited for, the pipeline is at rest, whatever they said.
pub proof fn lemma_three_reports_end_a_run<S>(
    machine: PipelineView<S>,
    first: EventView<S>,
    second: EventView<S>,
    third: EventView<S>,
)
    requires
        machine.wf(),
        machine.accepts(first),
        machine.step(first).accepts(second),
        machine.step(first).step(second).accepts(third),
    ensures
        machine.step(first).step(second).step(third).stage is Standby,
        !machine.step(first).step(second).step(third).state.status.phase.is_busy(),
{
    lemma_step_progress(machine, first);
    lemma_step_progress(machine.step(first), second);
    lemma_step_progress(machine.step(first).step(second), third);
    lemma_step_keeps_wf(machine, first);
    lemma_step_keeps_wf(machine.step(first), second);
    lemma_step_keeps_wf(machine.step(first).step(second), third);
}

/// A whole run that goes well: capture, transcription and typing, each
/// reported in turn, end in `Idle` with the recognised text as last result.
pub proof fn lemma_successful_run<S>(
    machine: PipelineView<S>,
    samples: Seq<S>,
    text: Seq<char>,
)
    requires
        machine.wf(),
        !machine.state.status.phase.is_busy(),
    ensures
        run(
            machine.admitted(),
            seq![EventView::Captured(samples), EventView::Transcribed(text), EventView::Typed],
        ).state.status == (StatusView { phase: PhaseView::Idle, last_result: Some(text) }),
        run(
            machine.admitted(),
            seq![EventView::Captured(samples), EventView::Transcribed(text), EventView::Typed],
        ).stage is Standby,
{
    let e1 = EventView::Captured(samples);
    let e2 = EventView::<S>::Transcribed(text);
    let e3 = EventView::<S>::Typed;
    let all = seq![e1, e2, e3];
    let two = seq![e1, e2];
    let one = seq![e1];
    assert(all.drop_last() =~= two);
    assert(two.drop_last() =~= one);
    assert(one.drop_last() =~= Seq::<EventView<S>>::empty());
    assert(run(machine.admitted(), Seq::<EventView<S>>::empty()) == machine.admitted());
    assert(run(machine.admitted(), one) == machine.admitted().step(e1));
    assert(run(machine.admitted(), two) == machine.admitted().step(e1).step(e2));
    assert(run(machine.admitted(), all) == machine.admitted().step(e1).step(e2).step(e3));
}

} // verus!
