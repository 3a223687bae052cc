//! Push-to-activate voice transcription: the verified core.
//!
//! The crate holds the decisions of the assistant: the lifecycle of one
//! record / transcribe / inject run, the status that front-ends read, the
//! sample-rate conversion and the capture buffer, and the rules that judge
//! whether a speech model fits the machine.  Devices, windows and the speech
//! engine are driven by the program around it, which performs the actions
//! that the pipeline hands out and reports back what happened.

pub mod status;
pub mod config;
pub mod state;
pub mod overlay;
pub mod error;
pub mod pipeline;
pub mod resample;
pub mod audio;
pub mod text;
pub mod hardware;
pub mod transcript;
