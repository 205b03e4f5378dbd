//! Gateway between captured audio and the speech recognition engine.
//!
//! The engine itself (a black box taking mono 16 kHz audio and returning
//! timestamped text segments with token log-probabilities) runs outside
//! the library.  This module owns the shapes the engine call works with
//! and everything around the call that is provable: the minimum-audio
//! policy, and the combination of segment texts into one transcript.
//! Segment confidence is carried as the opaque 32-bit encoding of the
//! engine-derived value; the library stores it and hands it on without
//! reading it.

use vstd::prelude::*;
use vstd::string::StringExecFns;
use crate::text::{join_strings, spec_join_texts};

verus! {

/// Audio handed to a transcription run: interleaved sample words with
/// their source format.
pub struct InputAudio {
    pub data: Vec<u32>,
    pub sample_rate: u32,
    pub channels: usize,
}

/// A timestamped span of recognized text.  `start` and `end` share one
/// time unit and come from the engine; `confidence` is the 32-bit
/// encoding of the exponentiated mean token log-probability.
#[derive(Debug)]
pub struct Segment {
    pub start: usize,
    pub end: usize,
    pub text: String,
    pub confidence: u32,
}

impl PartialEq for Segment {
    /// Segments compare by position and text; the derived confidence is
    /// not part of a segment's identity.
    fn eq(&self, other: &Self) -> (r: bool) {
        self.start == other.start && self.end == other.end && self.text == other.text
    }
}

impl vstd::std_specs::cmp::PartialEqSpecImpl for Segment {
    open spec fn obeys_eq_spec() -> bool {
        true
    }

    open spec fn eq_spec(&self, other: &Segment) -> bool {
        self.start == other.start && self.end == other.end && self.text@ == other.text@
    }
}

/// The texts of a run of segments, in emitted order.
pub open spec fn spec_texts_of(segs: Seq<Segment>) -> Seq<Seq<char>> {
    segs.map_values(|s: Segment| s.text@)
}

/// The transcript one engine run combines to: the segment texts joined
/// in emitted order.
pub open spec fn spec_combined_of(segs: Seq<Segment>) -> Seq<char> {
    spec_join_texts(spec_texts_of(segs))
}

/// What one transcription run returns: the ordered segments and their
/// texts combined into one string.
pub struct TranscribeOutput {
    pub combined: String,
    pub segments: Vec<Segment>,
}

/// Why a transcription request failed.
#[derive(Clone, Copy, Debug, PartialEq, Eq, Structural)]
pub enum TranscriptionError {
    /// No audio snapshot was available.
    NoAudioData,
    /// The sample-rate conversion rejected the audio.
    ResampleFailed,
    /// Less than one second of converted audio: too little context for
    /// a useful recognition call.
    AudioTooShort,
    /// The engine invocation itself failed.
    EngineFailure,
}

impl TranscriptionError {
    /// The message shown for this error.
    pub open spec fn spec_message(self) -> Seq<char> {
        match self {
            TranscriptionError::NoAudioData => "Failed to get audio data"@,
            TranscriptionError::ResampleFailed => "failed to resample audio"@,
            TranscriptionError::AudioTooShort => "resampled audio is too short"@,
            TranscriptionError::EngineFailure => "Failed to transcribe audio"@,
        }
    }

    /// The message shown for this error.
    pub fn message(&self) -> (r: &'static str)
        ensures
            r@ == self.spec_message(),
    {
        match self {
            TranscriptionError::NoAudioData => "Failed to get audio data",
            TranscriptionError::ResampleFailed => "failed to resample audio",
            TranscriptionError::AudioTooShort => "resampled audio is too short",
            TranscriptionError::EngineFailure => "Failed to transcribe audio",
        }
    }
}

/// Fewest converted samples a recognition call is given: one second of
/// mono 16 kHz audio.
pub const MIN_TRANSCRIBE_SAMPLES: usize = 16000;

/// The minimum-audio policy: a recognition call is made only on at
/// least one second of converted audio.
pub fn check_min_audio(resampled_len: usize) -> (r: Result<(), TranscriptionError>)
    ensures
        r is Ok <==> resampled_len >= MIN_TRANSCRIBE_SAMPLES,
        r is Err ==> r == Err::<(), TranscriptionError>(TranscriptionError::AudioTooShort),
{
    if resampled_len < MIN_TRANSCRIBE_SAMPLES {
        Err(TranscriptionError::AudioTooShort)
    } else {
        Ok(())
    }
}

/// The captured audio from sample index `start` on: the window handed
/// to a partial transcription, excluding audio already folded into the
/// committed history.
pub fn audio_window_from(data: &Vec<u32>, start: usize) -> (r: Vec<u32>)
    requires
        start <= data@.len(),
    ensures
        r@ == data@.skip(start as int),
{
    let mut out: Vec<u32> = Vec::new();
    let mut i: usize = start;
    while i < data.len()
        invariant
            start <= i <= data@.len(),
            out@ == data@.subrange(start as int, i as int),
        decreases data@.len() - i,
    {
        let w = data[i];
        out.push(w);
        proof {
            assert(data@.subrange(start as int, i + 1) =~= data@.subrange(
                start as int,
                i as int,
            ).push(data@[i as int]));
        }
        i = i + 1;
    }
    proof {
        assert(data@.subrange(start as int, data@.len() as int) =~= data@.skip(start as int));
    }
    out
}

/// The texts of a run of segments, cloned in order.
pub fn segment_texts(segments: &Vec<Segment>) -> (r: Vec<String>)
    ensures
        r.deep_view() == spec_texts_of(segments@),
{
    let mut out: Vec<String> = Vec::new();
    let mut i: usize = 0;
    while i < segments.len()
        invariant
            i <= segments@.len(),
            out@.len() == i,
            forall|j: int| 0 <= j < i ==> (#[trigger] out@[j])@ == segments@[j].text@,
        decreases segments@.len() - i,
    {
        out.push(segments[i].text.clone());
        i = i + 1;
    }
    proof {
        assert(out.deep_view() =~~= spec_texts_of(segments@));
    }
    out
}

/// The segment texts joined into one transcript string.
pub fn join_segment_texts(segments: &Vec<Segment>) -> (r: String)
    ensures
        r@ == spec_combined_of(segments@),
{
    let texts = segment_texts(segments);
    join_strings(&texts)
}

/// Shape one engine run's segments into the returned transcript:
/// the segments in emitted order beside their texts combined into one
/// string.
pub fn combine_segments(segments: Vec<Segment>) -> (out: TranscribeOutput)
    ensures
        out.segments == segments,
        out.combined@ == spec_combined_of(segments@),
{
    let combined = join_segment_texts(&segments);
    TranscribeOutput { combined, segments }
}

} // verus!
