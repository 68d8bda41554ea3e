//! Verified core of a screen-capture transcription pipeline: a capture is
//! transcribed by a remote service, the recognized text is converted into an
//! alternate markup dialect, ordered literal replace rules are applied, and
//! the outcome is delivered to the clipboard or to an accumulation buffer.

pub mod config;
pub mod convert;
pub mod delivery;
pub mod pipeline;
pub mod request;
pub mod session;
pub mod task;
pub mod text;
