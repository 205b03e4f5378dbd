//! The streaming transcription orchestrator: the state machine that
//! drives periodic partial transcription, keeps the committed segment
//! history and the live text, detects the spoken stop phrase, and
//! produces the final cleaned transcript.
//!
//! The orchestrator decides; the surrounding program performs.  Timers,
//! the device stream, the recognition engine and the clipboard live
//! outside the library: they call `transcribe_audio` for the audio
//! window to recognize, hand the engine's segments back through
//! `apply_partial` and `apply_final`, and carry out what those steps
//! return (auto-stop, text to copy).

use vstd::prelude::*;
use vstd::string::StringExecFns;
use crate::capture::{capture_wf, spec_duration_ms, CaptureView, SimpleAudioCapture};
use crate::config::{BehaviorConfig, BehaviorView};
use crate::text::{
    matches_stop_phrase, spec_cut, spec_join_texts, spec_stop_match, spec_trim, spec_trim_end,
    spec_two_digit, strip_stop_phrase, trim_spaces, two_digit_string, join_strings,
};
use crate::whisper::{
    spec_combined_of, spec_texts_of, InputAudio, Segment, TranscriptionError,
};

verus! {

/// Mathematical view of the orchestrator.
pub struct OrchestratorView {
    pub recording: bool,
    pub committed: Seq<Seq<char>>,
    pub live_text: Seq<char>,
    pub audio_offset: u64,
    pub transcription: Seq<char>,
    pub duration_minutes: Seq<char>,
    pub duration_seconds: Seq<char>,
    pub behavior: BehaviorView,
}

/// `n` clamped into the range of the counter.
pub open spec fn spec_saturate_u64(n: nat) -> u64 {
    if n <= u64::MAX {
        n as u64
    } else {
        u64::MAX
    }
}

/// Where the non-committed window begins, as an interleaved sample
/// index: the audio offset (engine centiseconds) times the source
/// sample rate over one hundred, times the channel count, clamped.
pub open spec fn spec_window_start(offset: u64, rate: u32, channels: usize) -> u64 {
    let frames = spec_saturate_u64((offset as nat) * (rate as nat) / 100);
    spec_saturate_u64((frames as nat) * (channels as nat))
}

/// The audio offset after folding a committed boundary at time `e`:
/// the offset advances by `e`, never decreasing, clamped at the top of
/// its range.
pub open spec fn spec_offset_advance(offset: u64, e: nat) -> u64 {
    spec_saturate_u64(offset as nat + e)
}

/// One partial-transcription step over the segments one engine run
/// returned for the non-committed window.
///
/// No segments: nothing changes.  One segment: it may still be growing,
/// so it only replaces the live text.  More: all but the last are
/// final — their texts join the committed history and the offset
/// advances by the end time of the second-to-last segment — and the
/// last becomes the live text.
pub open spec fn spec_apply_partial(v: OrchestratorView, segs: Seq<Segment>) -> OrchestratorView {
    if segs.len() == 0 {
        v
    } else if segs.len() == 1 {
        OrchestratorView { live_text: segs[0].text@, ..v }
    } else {
        OrchestratorView {
            committed: v.committed + spec_texts_of(segs.take(segs.len() - 1)),
            audio_offset: spec_offset_advance(v.audio_offset, segs[segs.len() - 2].end as nat),
            live_text: segs.last().text@,
            ..v
        }
    }
}

/// Whether a partial step asks for the recording to end: the stop
/// phrase is enabled and the window's combined text ends with it.
pub open spec fn spec_partial_stop(v: OrchestratorView, segs: Seq<Segment>) -> bool {
    &&& v.behavior.stop_phrase_enabled
    &&& segs.len() > 0
    &&& spec_stop_match(spec_combined_of(segs), v.behavior.stop_phrase_pattern)
}

/// The whole transcript at the end of a recording: the committed
/// history followed by the final run's segment texts, joined.
pub open spec fn spec_full_text(v: OrchestratorView, segs: Seq<Segment>) -> Seq<char> {
    spec_join_texts(v.committed + spec_texts_of(segs))
}

/// The published end-of-recording text: the whole transcript, trimmed,
/// with a trailing stop-phrase match stripped when the stop phrase is
/// enabled, so the spoken stop command itself is not shown or copied.
pub open spec fn spec_final_text(v: OrchestratorView, segs: Seq<Segment>) -> Seq<char> {
    let trimmed = spec_trim(spec_full_text(v, segs));
    if v.behavior.stop_phrase_enabled {
        match spec_cut(trimmed, v.behavior.stop_phrase_pattern) {
            Some(cut) => spec_trim_end(trimmed.take(cut as int)),
            None => trimmed,
        }
    } else {
        trimmed
    }
}

/// The final-transcription step: leave the recording state, clear the
/// live text, and publish the cleaned transcript — unless the whole
/// transcript is empty, in which case the display keeps what it shows.
pub open spec fn spec_apply_final(v: OrchestratorView, segs: Seq<Segment>) -> OrchestratorView {
    if spec_full_text(v, segs).len() == 0 {
        OrchestratorView { recording: false, live_text: Seq::empty(), ..v }
    } else {
        OrchestratorView {
            recording: false,
            live_text: Seq::empty(),
            transcription: spec_final_text(v, segs),
            ..v
        }
    }
}

/// A fresh recording: recording on, with no history, no live text, no
/// offset and no published text.
pub open spec fn spec_start_recording(v: OrchestratorView) -> OrchestratorView {
    OrchestratorView {
        recording: true,
        committed: Seq::empty(),
        live_text: Seq::empty(),
        audio_offset: 0,
        transcription: Seq::empty(),
        ..v
    }
}

/// The fast tick: while recording, with a negotiated format, republish
/// the elapsed duration as a minutes and a seconds display.
pub open spec fn spec_duration_tick(v: OrchestratorView, r: CaptureView) -> OrchestratorView {
    if v.recording && r.sample_rate is Some {
        let ms = spec_saturate_u64(spec_duration_ms(r));
        let secs = ms / 1000;
        OrchestratorView {
            duration_minutes: spec_two_digit((secs / 60) as nat),
            duration_seconds: spec_two_digit((secs % 60) as nat),
            ..v
        }
    } else {
        v
    }
}

/// A sequence of partial-transcription cycles, applied in order.
pub open spec fn spec_run_partial_cycles(
    v: OrchestratorView,
    cycles: Seq<Seq<Segment>>,
) -> OrchestratorView
    decreases cycles.len(),
{
    if cycles.len() == 0 {
        v
    } else {
        spec_apply_partial(spec_run_partial_cycles(v, cycles.drop_last()), cycles.last())
    }
}

/// One partial step never moves the audio offset backward.
pub proof fn lemma_partial_offset_monotonic(v: OrchestratorView, segs: Seq<Segment>)
    ensures
        spec_apply_partial(v, segs).audio_offset >= v.audio_offset,
{
}

/// The audio offset is non-decreasing across any sequence of
/// partial-transcription cycles within one recording.
pub proof fn lemma_cycles_offset_monotonic(v: OrchestratorView, cycles: Seq<Seq<Segment>>)
    ensures
        spec_run_partial_cycles(v, cycles).audio_offset >= v.audio_offset,
    decreases cycles.len(),
{
    if cycles.len() > 0 {
        lemma_cycles_offset_monotonic(v, cycles.drop_last());
        lemma_partial_offset_monotonic(spec_run_partial_cycles(v, cycles.drop_last()), cycles.last());
    }
}

/// One partial step only ever appends to the committed history: every
/// text already committed stays, in place.
pub proof fn lemma_partial_history_append_only(v: OrchestratorView, segs: Seq<Segment>)
    ensures
        spec_apply_partial(v, segs).committed.len() >= v.committed.len(),
        spec_apply_partial(v, segs).committed.take(v.committed.len() as int) == v.committed,
{
    assert(spec_apply_partial(v, segs).committed.take(v.committed.len() as int) =~= v.committed);
}

/// The committed history only grows across any sequence of
/// partial-transcription cycles: finalized text is never rewritten.
pub proof fn lemma_cycles_history_append_only(v: OrchestratorView, cycles: Seq<Seq<Segment>>)
    ensures
        spec_run_partial_cycles(v, cycles).committed.len() >= v.committed.len(),
        spec_run_partial_cycles(v, cycles).committed.take(v.committed.len() as int) == v.committed,
    decreases cycles.len(),
{
    if cycles.len() > 0 {
        let mid = spec_run_partial_cycles(v, cycles.drop_last());
        lemma_cycles_history_append_only(v, cycles.drop_last());
        lemma_partial_history_append_only(mid, cycles.last());
        let fin = spec_apply_partial(mid, cycles.last());
        assert(fin.committed.take(v.committed.len() as int) =~= v.committed);
    }
}

/// An engine run that returns no segments leaves the orchestrator
/// untouched: the committed history, the audio offset and everything
/// else stay exactly as they were.
pub proof fn lemma_empty_partial_keeps_state(v: OrchestratorView)
    ensures
        spec_apply_partial(v, Seq::empty()) == v,
{
}

/// What the orchestrator decided a transcription request comes to.
pub enum TranscribeStep {
    /// Too little audio for a useful recognition call: skip this cycle.
    Skip,
    /// Run the engine over this audio.
    Run(InputAudio),
}

/// Snapshot the capture session for one transcription run.
///
/// Fails when no device negotiation has succeeded yet; skips when less
/// than two seconds of audio have been captured; otherwise hands out
/// the full captured audio with its source format.
pub fn transcribe_audio(recorder: &SimpleAudioCapture) -> (r: Result<
    TranscribeStep,
    TranscriptionError,
>)
    requires
        capture_wf(recorder@),
    ensures
        ({
            let v = recorder@;
            &&& (r is Err <==> v.sample_rate is None)
            &&& (r is Err ==> r == Err::<TranscribeStep, TranscriptionError>(
                TranscriptionError::NoAudioData,
            ))
            &&& (r matches Ok(TranscribeStep::Skip) <==> v.sample_rate is Some
                && spec_duration_ms(v) < 2000)
            &&& (r matches Ok(TranscribeStep::Run(input)) ==> v.sample_rate is Some
                && spec_duration_ms(v) >= 2000 && input.data@ == v.data && Some(input.sample_rate)
                == v.sample_rate && Some(input.channels) == v.channels)
            &&& (v.sample_rate is Some && spec_duration_ms(v) >= 2000 ==> r matches Ok(
                TranscribeStep::Run(_),
            ))
        }),
{
    let data = recorder.get_audio_data();
    let rate = recorder.get_sample_rate();
    let channels = recorder.get_channels();
    let duration = recorder.get_duration();
    match (data, rate, channels, duration) {
        (Some(d), Some(r0), Some(c0), Some(ms)) => {
            if ms < 2000 {
                Ok(TranscribeStep::Skip)
            } else {
                Ok(TranscribeStep::Run(InputAudio { data: d, sample_rate: r0, channels: c0 }))
            }
        },
        _ => Err(TranscriptionError::NoAudioData),
    }
}

/// The streaming orchestrator.
pub struct Orchestrator {
    recording: bool,
    committed: Vec<String>,
    live_text: String,
    audio_offset: u64,
    transcription: String,
    duration_minutes: String,
    duration_seconds: String,
    behavior: BehaviorConfig,
}

impl View for Orchestrator {
    type V = OrchestratorView;

    closed spec fn view(&self) -> OrchestratorView {
        OrchestratorView {
            recording: self.recording,
            committed: self.committed.deep_view(),
            live_text: self.live_text@,
            audio_offset: self.audio_offset,
            transcription: self.transcription@,
            duration_minutes: self.duration_minutes@,
            duration_seconds: self.duration_seconds@,
            behavior: self.behavior@,
        }
    }
}

impl Orchestrator {
    /// An idle orchestrator with the given behavior configuration.
    pub fn new(behavior: BehaviorConfig) -> (s: Self)
        ensures
            !s@.recording,
            s@.committed =~= Seq::<Seq<char>>::empty(),
            s@.live_text =~= Seq::<char>::empty(),
            s@.audio_offset == 0,
            s@.transcription =~= Seq::<char>::empty(),
            s@.duration_minutes =~= Seq::<char>::empty(),
            s@.duration_seconds =~= Seq::<char>::empty(),
            s@.behavior == behavior@,
    {
        let s = Orchestrator {
            recording: false,
            committed: Vec::new(),
            live_text: String::new(),
            audio_offset: 0,
            transcription: String::new(),
            duration_minutes: String::new(),
            duration_seconds: String::new(),
            behavior,
        };
        proof {
            assert(s@.committed =~~= Seq::<Seq<char>>::empty());
        }
        s
    }

    /// Whether a recording is running.
    pub fn recording(&self) -> (r: bool)
        ensures
            r == self@.recording,
    {
        self.recording
    }

    /// The published transcription text.
    pub fn transcription(&self) -> (r: &String)
        ensures
            r@ == self@.transcription,
    {
        &self.transcription
    }

    /// The live, possibly still-growing trailing text.
    pub fn live_text(&self) -> (r: &String)
        ensures
            r@ == self@.live_text,
    {
        &self.live_text
    }

    /// Engine time already folded into the committed history; audio
    /// before this point is excluded from re-recognition.
    pub fn audio_offset(&self) -> (r: u64)
        ensures
            r == self@.audio_offset,
    {
        self.audio_offset
    }

    /// The minutes display of the recording clock.
    pub fn duration_minutes(&self) -> (r: &String)
        ensures
            r@ == self@.duration_minutes,
    {
        &self.duration_minutes
    }

    /// The seconds display of the recording clock.
    pub fn duration_seconds(&self) -> (r: &String)
        ensures
            r@ == self@.duration_seconds,
    {
        &self.duration_seconds
    }

    /// Number of committed segment texts.
    pub fn committed_len(&self) -> (r: usize)
        ensures
            r == self@.committed.len(),
    {
        self.committed.len()
    }

    /// One committed segment text, in commit order.
    pub fn committed_text(&self, i: usize) -> (r: Option<&String>)
        ensures
            r is Some <==> i < self@.committed.len(),
            r matches Some(s) ==> s@ == self@.committed[i as int],
    {
        if i < self.committed.len() {
            Some(&self.committed[i])
        } else {
            None
        }
    }

    /// First sample of the non-committed window: the audio offset,
    /// counted in the engine's centisecond time unit, converted to an
    /// interleaved sample index at the session's source format.
    /// Clamped at the top of its range.
    pub fn window_start_samples(&self, sample_rate: u32, channels: usize) -> (r: u64)
        ensures
            r == spec_window_start(self@.audio_offset, sample_rate, channels),
    {
        proof {
            assert((self.audio_offset as u128) * (sample_rate as u128)
                < 0x1_0000_0000_0000_0000_0000_0000u128) by (nonlinear_arith)
                requires
                    self.audio_offset as u128 <= 0xFFFF_FFFF_FFFF_FFFFu128,
                    sample_rate as u128 <= 0xFFFF_FFFFu128,
            ;
        }
        let frames_wide: u128 = (self.audio_offset as u128) * (sample_rate as u128) / 100;
        let frames: u64 = if frames_wide <= u64::MAX as u128 {
            frames_wide as u64
        } else {
            u64::MAX
        };
        proof {
            assert((frames as u128) * (channels as u128)
                <= 0xFFFF_FFFF_FFFF_FFFF_FFFF_FFFF_FFFF_FFFFu128) by (nonlinear_arith)
                requires
                    frames as u128 <= 0xFFFF_FFFF_FFFF_FFFFu128,
                    channels as u128 <= 0xFFFF_FFFF_FFFF_FFFFu128,
            ;
        }
        let samples_wide: u128 = (frames as u128) * (channels as u128);
        if samples_wide <= u64::MAX as u128 {
            samples_wide as u64
        } else {
            u64::MAX
        }
    }

    /// Begin a fresh recording: every trace of the previous one is
    /// reset.  The caller clears and starts the capture session and
    /// arms the two timers.
    pub fn start_recording(&mut self)
        ensures
            final(self)@ == spec_start_recording(old(self)@),
    {
        self.recording = true;
        self.committed = Vec::new();
        self.live_text = String::new();
        self.audio_offset = 0;
        self.transcription = String::new();
        proof {
            assert(self@.committed =~~= Seq::<Seq<char>>::empty());
            assert(self@ =~= spec_start_recording(old(self)@));
        }
    }

    /// Leave the recording state without touching the transcript; used
    /// when the final transcription itself failed.
    pub fn stop_recording(&mut self)
        ensures
            final(self)@ == (OrchestratorView { recording: false, ..old(self)@ }),
    {
        self.recording = false;
        proof {
            assert(self@ =~= (OrchestratorView { recording: false, ..old(self)@ }));
        }
    }

    /// The fast tick: republish the elapsed duration while recording.
    pub fn duration_tick(&mut self, recorder: &SimpleAudioCapture)
        requires
            capture_wf(recorder@),
        ensures
            final(self)@ == spec_duration_tick(old(self)@, recorder@),
    {
        if self.recording {
            match recorder.get_duration() {
                Some(ms) => {
                    let secs: u64 = ms / 1000;
                    self.duration_minutes = two_digit_string(secs / 60);
                    self.duration_seconds = two_digit_string(secs % 60);
                    proof {
                        assert(self@ =~= spec_duration_tick(old(self)@, recorder@));
                    }
                },
                None => {
                    proof {
                        assert(self@ =~= spec_duration_tick(old(self)@, recorder@));
                    }
                },
            }
        } else {
            proof {
                assert(self@ =~= spec_duration_tick(old(self)@, recorder@));
            }
        }
    }

    /// Whether the slow tick should run a partial transcription at all.
    pub fn partial_due(&self) -> (r: bool)
        ensures
            r == (self@.recording && self@.behavior.realtime_transcribe),
    {
        self.recording && self.behavior.realtime_transcribe
    }

    /// Fold one partial engine run into the orchestrator and report
    /// whether the spoken stop phrase asks for the recording to end;
    /// on `true` the caller performs the same transition as a manual
    /// stop request.
    pub fn apply_partial(&mut self, segments: &Vec<Segment>) -> (stop: bool)
        ensures
            final(self)@ == spec_apply_partial(old(self)@, segments@),
            stop == spec_partial_stop(old(self)@, segments@),
    {
        let n = segments.len();
        if n == 0 {
            proof {
                assert(self@ =~= spec_apply_partial(old(self)@, segments@));
            }
            return false;
        }
        if n >= 2 {
            let ghost committed_before = self.committed.deep_view();
            let mut k: usize = 0;
            while k < n - 1
                invariant
                    k <= n - 1,
                    n == segments@.len(),
                    n >= 2,
                    self.committed@.len() == old(self).committed@.len() + k,
                    forall|j: int|
                        0 <= j < old(self).committed@.len() ==> (#[trigger] self.committed@[j])
                            == old(self).committed@[j],
                    forall|j: int|
                        old(self).committed@.len() <= j < old(self).committed@.len() + k ==> (
                        #[trigger] self.committed@[j])@ == segments@[j - old(
                            self,
                        ).committed@.len()].text@,
                    self.recording == old(self).recording,
                    self.live_text == old(self).live_text,
                    self.audio_offset == old(self).audio_offset,
                    self.transcription == old(self).transcription,
                    self.duration_minutes == old(self).duration_minutes,
                    self.duration_seconds == old(self).duration_seconds,
                    self.behavior == old(self).behavior,
                decreases n - 1 - k,
            {
                self.committed.push(segments[k].text.clone());
                k = k + 1;
            }
            proof {
                assert(self.committed.deep_view() =~~= old(self)@.committed + spec_texts_of(
                    segments@.take(n - 1),
                ));
            }
            let e: u64 = segments[n - 2].end as u64;
            if self.audio_offset <= u64::MAX - e {
                self.audio_offset = self.audio_offset + e;
            } else {
                self.audio_offset = u64::MAX;
            }
        }
        self.live_text = segments[n - 1].text.clone();
        proof {
            assert(self@ =~= spec_apply_partial(old(self)@, segments@));
        }
        let joined = crate::whisper::join_segment_texts(segments);
        let stop = self.behavior.stop_phrase_enabled && matches_stop_phrase(
            joined.as_str(),
            self.behavior.stop_phrase_pattern.as_str(),
        );
        stop
    }

    /// Fold the final engine run into the orchestrator: publish the
    /// cleaned transcript and leave the recording state.  Returns the
    /// text to copy to the clipboard, when auto-copy is on and there is
    /// a transcript at all; the caller performs the copy.
    pub fn apply_final(&mut self, segments: &Vec<Segment>) -> (to_copy: Option<String>)
        ensures
            final(self)@ == spec_apply_final(old(self)@, segments@),
            to_copy is Some <==> old(self)@.behavior.auto_copy && spec_full_text(
                old(self)@,
                segments@,
            ).len() > 0,
            to_copy matches Some(s) ==> s@ == spec_final_text(old(self)@, segments@),
    {
        let mut all: Vec<String> = Vec::new();
        let mut k: usize = 0;
        while k < self.committed.len()
            invariant
                k <= self.committed@.len(),
                all@.len() == k,
                forall|j: int| 0 <= j < k ==> (#[trigger] all@[j])@ == self.committed@[j]@,
            decreases self.committed@.len() - k,
        {
            let t = self.committed[k].clone();
            all.push(t);
            k = k + 1;
        }
        let mut k2: usize = 0;
        while k2 < segments.len()
            invariant
                k2 <= segments@.len(),
                all@.len() == self.committed@.len() + k2,
                forall|j: int|
                    0 <= j < self.committed@.len() ==> (#[trigger] all@[j])@
                        == self.committed@[j]@,
                forall|j: int|
                    self.committed@.len() <= j < self.committed@.len() + k2 ==> (#[trigger] all@[j])@
                        == segments@[j - self.committed@.len()].text@,
            decreases segments@.len() - k2,
        {
            let t = segments[k2].text.clone();
            all.push(t);
            k2 = k2 + 1;
        }
        proof {
            assert(all.deep_view() =~~= old(self)@.committed + spec_texts_of(segments@));
        }
        let full = join_strings(&all);
        self.recording = false;
        self.live_text = String::new();
        if full.as_str().is_empty() {
            proof {
                assert(self@ =~= spec_apply_final(old(self)@, segments@));
            }
            return None;
        }
        let trimmed = trim_spaces(full.as_str());
        let cleaned: String = if self.behavior.stop_phrase_enabled {
            match strip_stop_phrase(trimmed.as_str(), self.behavior.stop_phrase_pattern.as_str()) {
                Some(s) => s,
                None => trimmed,
            }
        } else {
            trimmed
        };
        let to_copy: Option<String> = if self.behavior.auto_copy {
            Some(cleaned.clone())
        } else {
            None
        };
        self.transcription = cleaned;
        proof {
            assert(self@ =~= spec_apply_final(old(self)@, segments@));
        }
        to_copy
    }
}

/// Show a transcription error where the transcript would stand, as
/// "Error: " followed by the error's message; the recording state is
/// unaffected.
pub fn handle_transcription_error(orch: &mut Orchestrator, error: &TranscriptionError)
    ensures
        final(orch)@ == (OrchestratorView {
            transcription: "Error: "@ + error.spec_message(),
            ..old(orch)@
        }),
{
    let mut msg = String::from_str("Error: ");
    msg.append(error.message());
    orch.set_error_text(msg);
}

impl Orchestrator {
    /// Replace the published text; used for error display.
    fn set_error_text(&mut self, text: String)
        ensures
            final(self)@ == (OrchestratorView { transcription: text@, ..old(self)@ }),
    {
        self.transcription = text;
        proof {
            assert(self@ =~= (OrchestratorView { transcription: text@, ..old(self)@ }));
        }
    }
}

} // verus!
