//! Verified core of a push-to-talk speech transcription tool.
//!
//! The library models the audio capture session, the bookkeeping of
//! sample-rate conversion, the gateway that shapes recognition-engine
//! output, and the streaming orchestrator that drives partial and final
//! transcription with stop-phrase detection.  The sound device, the
//! resampling filter and the recognition engine themselves run outside
//! the library and exchange plain values with it.

pub mod capture;
pub mod common;
pub mod config;
pub mod orchestrator;
pub mod resample;
pub mod text;
pub mod ui;
pub mod whisper;
