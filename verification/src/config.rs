//! Behavior configuration consumed by the orchestrator: immutable for
//! the lifetime of one session.
//!
//! Loading configuration from disk and the engine-side tuning knobs
//! live outside the library; the orchestrator only reads these flags
//! and the stop phrase.

use vstd::prelude::*;
use vstd::string::StringExecFns;

verus! {

/// Mathematical view of the behavior configuration.
pub struct BehaviorView {
    pub realtime_transcribe: bool,
    pub auto_copy: bool,
    pub stop_phrase_enabled: bool,
    pub stop_phrase_pattern: Seq<char>,
}

/// How the orchestrator behaves during one session: whether partial
/// transcription runs, whether the final text is copied to the
/// clipboard, and which spoken phrase ends the recording.
#[derive(Clone, Debug)]
pub struct BehaviorConfig {
    pub realtime_transcribe: bool,
    pub auto_copy: bool,
    pub stop_phrase_enabled: bool,
    pub stop_phrase_pattern: String,
}

impl View for BehaviorConfig {
    type V = BehaviorView;

    open spec fn view(&self) -> BehaviorView {
        BehaviorView {
            realtime_transcribe: self.realtime_transcribe,
            auto_copy: self.auto_copy,
            stop_phrase_enabled: self.stop_phrase_enabled,
            stop_phrase_pattern: self.stop_phrase_pattern@,
        }
    }
}

impl Default for BehaviorConfig {
    /// Partial transcription, auto-copy and the stop phrase are all on
    /// by default; the default stop phrase is "that's all", matched
    /// case-insensitively with optional punctuation.
    fn default() -> (c: Self)
        ensures
            c.realtime_transcribe,
            c.auto_copy,
            c.stop_phrase_enabled,
            c.stop_phrase_pattern@ == "that's all"@,
    {
        BehaviorConfig {
            realtime_transcribe: true,
            auto_copy: true,
            stop_phrase_enabled: true,
            stop_phrase_pattern: String::from_str("that's all"),
        }
    }
}

} // verus!
