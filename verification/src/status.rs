//! The lifecycle phase and the status snapshot that every front-end reads.

use vstd::prelude::*;
use vstd::string::*;
use crate::text::text_of;

verus! {

/// The stage of the pipeline's lifecycle. Exactly one holds at any instant.
#[derive(Debug, PartialEq, Eq)]
pub enum Phase {
    Idle,
    Recording,
    Transcribing,
    Error(String),
}

/// The mathematical value of a [`Phase`].
pub ghost enum PhaseView {
    Idle,
    Recording,
    Transcribing,
    Error(Seq<char>),
}

impl PhaseView {
    /// A run is in flight: a new trigger must be turned away.
    pub open spec fn is_busy(self) -> bool {
        self is Recording || self is Transcribing
    }
}

impl View for Phase {
    type V = PhaseView;

    open spec fn view(&self) -> PhaseView {
        match self {
            Phase::Idle => PhaseView::Idle,
            Phase::Recording => PhaseView::Recording,
            Phase::Transcribing => PhaseView::Transcribing,
            Phase::Error(message) => PhaseView::Error(message@),
        }
    }
}

impl Clone for Phase {
    fn clone(&self) -> (copy: Self)
        ensures
            copy@ == self@,
    {
        match self {
            Phase::Idle => Phase::Idle,
            Phase::Recording => Phase::Recording,
            Phase::Transcribing => Phase::Transcribing,
            Phase::Error(message) => Phase::Error(message.clone()),
        }
    }
}

impl Phase {
    /// Whether a run is in flight.
    pub fn is_busy(&self) -> (busy: bool)
        ensures
            busy == self@.is_busy(),
    {
        match self {
            Phase::Recording => true,
            Phase::Transcribing => true,
            _ => false,
        }
    }
}

/// What an observer sees at one instant: the phase, and the text of the last
/// run that completed.
#[derive(Debug, PartialEq, Eq)]
pub struct AppStatus {
    pub phase: Phase,
    pub last_result: Option<String>,
}

/// The mathematical value of an [`AppStatus`].
pub ghost struct StatusView {
    pub phase: PhaseView,
    pub last_result: Option<Seq<char>>,
}

impl View for AppStatus {
    type V = StatusView;

    open spec fn view(&self) -> StatusView {
        StatusView { phase: self.phase@, last_result: text_of(self.last_result) }
    }
}

impl Clone for AppStatus {
    fn clone(&self) -> (copy: Self)
        ensures
            copy@ == self@,
    {
        let last_result = match &self.last_result {
            Some(text) => Some(text.clone()),
            None => None,
        };
        AppStatus { phase: self.phase.clone(), last_result }
    }
}

impl StatusView {
    /// The status of a freshly started service.
    pub open spec fn initial() -> StatusView {
        StatusView { phase: PhaseView::Idle, last_result: None }
    }

    /// The phase replaced, the last result kept.
    pub open spec fn with_phase(self, phase: PhaseView) -> StatusView {
        StatusView { phase, last_result: self.last_result }
    }

    /// A run ended well with `text`.
    pub open spec fn completed(self, text: Seq<char>) -> StatusView {
        StatusView { phase: PhaseView::Idle, last_result: Some(text) }
    }

    /// A run ended badly with `message`.
    pub open spec fn failed(self, message: Seq<char>) -> StatusView {
        self.with_phase(PhaseView::Error(message))
    }

    /// The recording flag raised or lowered. Lowering it ends a recording
    /// and leaves every other phase alone.
    pub open spec fn recording_set(self, recording: bool) -> StatusView {
        if recording {
            self.with_phase(PhaseView::Recording)
        } else if self.phase is Recording {
            self.with_phase(PhaseView::Idle)
        } else {
            self
        }
    }

    /// The transcribing flag raised or lowered. Lowering it ends a
    /// transcription and leaves every other phase alone.
    pub open spec fn transcribing_set(self, transcribing: bool) -> StatusView {
        if transcribing {
            self.with_phase(PhaseView::Transcribing)
        } else if self.phase is Transcribing {
            self.with_phase(PhaseView::Idle)
        } else {
            self
        }
    }
}

impl AppStatus {
    /// The status of a freshly started service: idle, nothing transcribed yet.
    pub fn new() -> (status: Self)
        ensures
            status@ == StatusView::initial(),
    {
        AppStatus { phase: Phase::Idle, last_result: None }
    }

    /// Whether audio is being captured.
    pub fn is_recording(&self) -> (recording: bool)
        ensures
            recording == (self@.phase is Recording),
    {
        match &self.phase {
            Phase::Recording => true,
            _ => false,
        }
    }

    /// Whether captured audio is being turned into text.
    pub fn is_transcribing(&self) -> (transcribing: bool)
        ensures
            transcribing == (self@.phase is Transcribing),
    {
        match &self.phase {
            Phase::Transcribing => true,
            _ => false,
        }
    }
}

} // verus!
