//! The shared status store: the one place that holds the status snapshot,
//! the settings in force and the audio handed from capture to transcription.
//!
//! Every operation is one step on the whole value, so a caller that puts the
//! store behind a lock gets one critical section per operation and no reader
//! ever sees half of a transition.

use vstd::prelude::*;
use crate::config::{Config, ConfigView};
use crate::status::{AppStatus, Phase, PhaseView, StatusView};

verus! {

/// The store. `S` is the type of one audio sample.
pub struct AppState<S> {
    status: AppStatus,
    config: Config,
    audio: Option<Vec<S>>,
}

/// The mathematical value of an [`AppState`].
pub ghost struct StateView<S> {
    pub status: StatusView,
    pub config: ConfigView,
    pub audio: Option<Seq<S>>,
}

/// The samples inside an optional buffer.
pub open spec fn samples_of<S>(audio: Option<Vec<S>>) -> Option<Seq<S>> {
    match audio {
        Some(samples) => Some(samples@),
        None => None,
    }
}

impl<S> StateView<S> {
    /// The same store with another status.
    pub open spec fn with_status(self, status: StatusView) -> StateView<S> {
        StateView { status, config: self.config, audio: self.audio }
    }

    /// The same store with other settings.
    pub open spec fn with_config(self, config: ConfigView) -> StateView<S> {
        StateView { status: self.status, config, audio: self.audio }
    }

    /// The same store with another audio slot.
    pub open spec fn with_audio(self, audio: Option<Seq<S>>) -> StateView<S> {
        StateView { status: self.status, config: self.config, audio }
    }
}

impl<S> View for AppState<S> {
    type V = StateView<S>;

    closed spec fn view(&self) -> StateView<S> {
        StateView { status: self.status@, config: self.config@, audio: samples_of(self.audio) }
    }
}

impl<S> AppState<S> {
    /// A store for a freshly started service: idle, nothing transcribed, no
    /// audio held, and `config` in force.
    pub fn new(config: Config) -> (state: Self)
        ensures
            state@ == (StateView::<S> {
                status: StatusView::initial(),
                config: config@,
                audio: None,
            }),
    {
        AppState { status: AppStatus::new(), config, audio: None }
    }

    /// A copy of the status snapshot.
    pub fn get_status(&self) -> (status: AppStatus)
        ensures
            status@ == self@.status,
    {
        self.status.clone()
    }

    /// Whether a run is in flight, so that a new trigger must be turned away.
    pub fn is_busy(&self) -> (busy: bool)
        ensures
            busy == self@.status.phase.is_busy(),
    {
        self.status.phase.is_busy()
    }

    /// Replaces the phase and leaves the last result alone.
    pub fn set_phase(&mut self, phase: Phase)
        ensures
            final(self)@ == old(self)@.with_status(old(self)@.status.with_phase(phase@)),
    {
        self.status.phase = phase;
    }

    /// Records the end of a successful run: the phase returns to idle and
    /// `text` becomes the last result, whatever the phase was.
    pub fn complete(&mut self, text: String)
        ensures
            final(self)@ == old(self)@.with_status(old(self)@.status.completed(text@)),
            final(self)@.status.phase is Idle,
            final(self)@.status.last_result == Some(text@),
    {
        self.status.last_result = Some(text);
        self.status.phase = Phase::Idle;
    }

    /// Records a failed run: the phase becomes the error `message` and the
    /// last result stays.
    pub fn fail(&mut self, message: String)
        ensures
            final(self)@ == old(self)@.with_status(old(self)@.status.failed(message@)),
            final(self)@.status.phase == PhaseView::Error(message@),
            final(self)@.status.last_result == old(self)@.status.last_result,
    {
        self.status.phase = Phase::Error(message);
    }

    /// Raises or lowers the recording flag. Raising it enters the recording
    /// phase; lowering it ends a recording and changes nothing otherwise.
    pub fn set_recording(&mut self, recording: bool)
        ensures
            final(self)@ == old(self)@.with_status(old(self)@.status.recording_set(recording)),
    {
        if recording {
            self.status.phase = Phase::Recording;
        } else if self.status.is_recording() {
            self.status.phase = Phase::Idle;
        }
    }

    /// Raises or lowers the transcribing flag. Raising it enters the
    /// transcribing phase; lowering it ends a transcription and changes
    /// nothing otherwise.
    pub fn set_transcribing(&mut self, transcribing: bool)
        ensures
            final(self)@ == old(self)@.with_status(
                old(self)@.status.transcribing_set(transcribing),
            ),
    {
        if transcribing {
            self.status.phase = Phase::Transcribing;
        } else if self.status.is_transcribing() {
            self.status.phase = Phase::Idle;
        }
    }

    /// Stores the text of a finished run; the same step as [`Self::complete`].
    pub fn set_result(&mut self, result: String)
        ensures
            final(self)@ == old(self)@.with_status(old(self)@.status.completed(result@)),
    {
        self.complete(result);
    }

    /// Puts captured audio into the slot, replacing what was there.
    pub fn store_audio(&mut self, data: Vec<S>)
        ensures
            final(self)@ == old(self)@.with_audio(Some(data@)),
    {
        self.audio = Some(data);
    }

    /// Takes the audio out of the slot, leaving it empty.
    pub fn take_audio(&mut self) -> (data: Option<Vec<S>>)
        ensures
            samples_of(data) == old(self)@.audio,
            final(self)@ == old(self)@.with_audio(None),
    {
        self.audio.take()
    }

    /// A copy of the settings in force.
    pub fn get_config(&self) -> (config: Config)
        ensures
            config@ == self@.config,
    {
        self.config.clone()
    }

    /// Puts `config` in force.
    pub fn update_config(&mut self, config: Config)
        ensures
            final(self)@ == old(self)@.with_config(config@),
    {
        self.config = config;
    }
}

} // verus!
