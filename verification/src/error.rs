//! What can go wrong in a run, and how each failure is worded.

use vstd::prelude::*;
use vstd::string::*;

verus! {

/// The answer to a trigger that arrives while a run is in flight. It goes
/// back to the caller and is never written to the status.
#[derive(Debug, Clone, Copy, PartialEq, Eq)]
pub struct Busy;

/// Why a part of the service could not be set up.
#[derive(Debug, PartialEq, Eq)]
pub struct SetupError {
    pub message: String,
}

/// A failure inside a run.
#[derive(Debug, PartialEq, Eq)]
pub enum PipelineError {
    /// The machine has no audio input device.
    NoInputDevice,
    /// The input device would not say how it delivers samples.
    DeviceConfigError(String),
    /// The device delivers samples in a format that is not handled.
    UnsupportedAudioFormat,
    /// The input stream could not be built or started.
    DeviceStreamError(String),
    /// The model file is not in the models directory.
    ModelNotFound,
    /// The speech engine failed.
    TranscriptionFailure(String),
    /// The text could not be typed into the focused application.
    InjectionFailure(String),
}

/// The mathematical value of a [`PipelineError`].
pub ghost enum PipelineErrorView {
    NoInputDevice,
    DeviceConfigError(Seq<char>),
    UnsupportedAudioFormat,
    DeviceStreamError(Seq<char>),
    ModelNotFound,
    TranscriptionFailure(Seq<char>),
    InjectionFailure(Seq<char>),
}

impl View for PipelineError {
    type V = PipelineErrorView;

    open spec fn view(&self) -> PipelineErrorView {
        match self {
            PipelineError::NoInputDevice => PipelineErrorView::NoInputDevice,
            PipelineError::DeviceConfigError(detail) => PipelineErrorView::DeviceConfigError(
                detail@,
            ),
            PipelineError::UnsupportedAudioFormat => PipelineErrorView::UnsupportedAudioFormat,
            PipelineError::DeviceStreamError(detail) => PipelineErrorView::DeviceStreamError(
                detail@,
            ),
            PipelineError::ModelNotFound => PipelineErrorView::ModelNotFound,
            PipelineError::TranscriptionFailure(detail) => PipelineErrorView::TranscriptionFailure(
                detail@,
            ),
            PipelineError::InjectionFailure(detail) => PipelineErrorView::InjectionFailure(detail@),
        }
    }
}

impl PipelineErrorView {
    /// The words that describe the failure to the user.
    pub open spec fn message(self) -> Seq<char> {
        match self {
            PipelineErrorView::NoInputDevice => "no input device"@,
            PipelineErrorView::DeviceConfigError(detail) => detail,
            PipelineErrorView::UnsupportedAudioFormat => "unsupported sample format"@,
            PipelineErrorView::DeviceStreamError(detail) => detail,
            PipelineErrorView::ModelNotFound =>
                "Model not found. Use download-models.sh or --model-path"@,
            PipelineErrorView::TranscriptionFailure(detail) => detail,
            PipelineErrorView::InjectionFailure(detail) => detail,
        }
    }

    /// The words that say which part of the run failed; they go in front of
    /// the message in an error notification.
    pub open spec fn label(self) -> Seq<char> {
        match self {
            PipelineErrorView::NoInputDevice => "Audio recorder error: "@,
            PipelineErrorView::DeviceConfigError(_) => "Audio recorder error: "@,
            PipelineErrorView::UnsupportedAudioFormat => "Recording error: "@,
            PipelineErrorView::DeviceStreamError(_) => "Recording error: "@,
            PipelineErrorView::ModelNotFound => "Model error: "@,
            PipelineErrorView::TranscriptionFailure(_) => "Transcription failed: "@,
            PipelineErrorView::InjectionFailure(_) => "Input error: "@,
        }
    }
}

impl Clone for PipelineError {
    fn clone(&self) -> (copy: Self)
        ensures
            copy@ == self@,
    {
        match self {
            PipelineError::NoInputDevice => PipelineError::NoInputDevice,
            PipelineError::DeviceConfigError(detail) => PipelineError::DeviceConfigError(
                detail.clone(),
            ),
            PipelineError::UnsupportedAudioFormat => PipelineError::UnsupportedAudioFormat,
            PipelineError::DeviceStreamError(detail) => PipelineError::DeviceStreamError(
                detail.clone(),
            ),
            PipelineError::ModelNotFound => PipelineError::ModelNotFound,
            PipelineError::TranscriptionFailure(detail) => PipelineError::TranscriptionFailure(
                detail.clone(),
            ),
            PipelineError::InjectionFailure(detail) => PipelineError::InjectionFailure(
                detail.clone(),
            ),
        }
    }
}

impl PipelineError {
    /// The words that describe the failure to the user.
    pub fn message(&self) -> (text: String)
        ensures
            text@ == self@.message(),
    {
        match self {
            PipelineError::NoInputDevice => String::from_str("no input device"),
            PipelineError::DeviceConfigError(detail) => detail.clone(),
            PipelineError::UnsupportedAudioFormat => String::from_str("unsupported sample format"),
            PipelineError::DeviceStreamError(detail) => detail.clone(),
            PipelineError::ModelNotFound => String::from_str(
                "Model not found. Use download-models.sh or --model-path",
            ),
            PipelineError::TranscriptionFailure(detail) => detail.clone(),
            PipelineError::InjectionFailure(detail) => detail.clone(),
        }
    }

    /// The words that say which part of the run failed.
    pub fn label(&self) -> (text: String)
        ensures
            text@ == self@.label(),
    {
        match self {
            PipelineError::NoInputDevice => String::from_str("Audio recorder error: "),
            PipelineError::DeviceConfigError(_) => String::from_str("Audio recorder error: "),
            PipelineError::UnsupportedAudioFormat => String::from_str("Recording error: "),
            PipelineError::DeviceStreamError(_) => String::from_str("Recording error: "),
            PipelineError::ModelNotFound => String::from_str("Model error: "),
            PipelineError::TranscriptionFailure(_) => String::from_str("Transcription failed: "),
            PipelineError::InjectionFailure(_) => String::from_str("Input error: "),
        }
    }
}

} // verus!
