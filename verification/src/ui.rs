//! A minimal recording user-interface state machine: one record toggle,
//! a periodic clock tick, and a transcription slot.
//!
//! The state machine decides; the surrounding program performs.  Each
//! `update` returns the outside action the decision calls for (start or
//! stop the device stream, or run a transcription), and the engine's
//! output is handed back through `transcribe`.

use vstd::prelude::*;
use crate::capture::{
    capture_wf, spec_duration_ms, spec_pause, spec_start, CaptureView, SimpleAudioCapture,
};
use crate::text::{matches_stop_phrase, spec_stop_match};
use crate::whisper::TranscribeOutput;

verus! {

/// A user-interface event: the record button, or a clock tick carrying
/// the current time in milliseconds.
#[derive(Clone, Copy, Debug)]
pub enum UiEvent {
    OnBtnRecord,
    Tick(u64),
}

/// The outside work one `update` step calls for.
#[derive(Clone, Copy, Debug, PartialEq, Eq, Structural)]
pub enum UiAction {
    /// Nothing to perform.
    Stay,
    /// Open the device and start streaming samples into the session.
    StartCapture,
    /// Stop the device stream and join the capture thread.
    StopCapture,
    /// Run a transcription over the captured audio and hand the output
    /// back through `transcribe`.
    RunTranscription,
}

/// Mathematical view of the user-interface state.
pub struct UiStateView {
    pub clock_updated_at: u64,
    pub recording: bool,
    pub recorder: CaptureView,
    pub trans_updated_at: u64,
    pub trans: Seq<char>,
}

/// A transcription is due on a tick at time `t` when a recording runs,
/// the last transcription lies more than three seconds back, and at
/// least three seconds of audio have been captured.
pub open spec fn spec_transcription_due(v: UiStateView, t: u64) -> bool {
    &&& v.recording
    &&& t > v.trans_updated_at + 3000
    &&& v.recorder.sample_rate is Some
    &&& spec_duration_ms(v.recorder) >= 3000
}

/// A transcript asks for the recording to end when it matches one of
/// the spoken end phrases, or when it is only the engine's marker for
/// silent audio.
pub open spec fn spec_ui_stop_requested(text: Seq<char>) -> bool {
    ||| spec_stop_match(text, "thats all"@)
    ||| spec_stop_match(text, "that is all"@)
    ||| spec_stop_match(text, "[blank audio]"@)
}

/// The user-interface state: the clock, the record flag, the capture
/// session, and the transcription on display.
pub struct UiState {
    clock_updated_at: u64,
    is_recording: bool,
    recorder: SimpleAudioCapture,
    trans_updated_at: u64,
    trans: String,
}

impl View for UiState {
    type V = UiStateView;

    closed spec fn view(&self) -> UiStateView {
        UiStateView {
            clock_updated_at: self.clock_updated_at,
            recording: self.is_recording,
            recorder: self.recorder@,
            trans_updated_at: self.trans_updated_at,
            trans: self.trans@,
        }
    }
}

impl Default for UiState {
    /// A fresh state: clock at zero, not recording, an idle capture
    /// session, and no transcription yet.
    fn default() -> (s: Self)
        ensures
            s@.clock_updated_at == 0,
            !s@.recording,
            s@.recorder == crate::capture::empty_capture(),
            s@.trans_updated_at == 0,
            s@.trans =~= Seq::<char>::empty(),
            capture_wf(s@.recorder),
    {
        UiState {
            clock_updated_at: 0,
            is_recording: false,
            recorder: SimpleAudioCapture::new(),
            trans_updated_at: 0,
            trans: String::new(),
        }
    }
}

impl UiState {
    /// The capture session, for feeding device events through.
    pub fn recorder_mut(&mut self) -> (r: &mut SimpleAudioCapture)
        ensures
            *r == old(self).spec_recorder(),
            final(self)@ == (UiStateView { recorder: final(r)@, ..old(self)@ }),
    {
        &mut self.recorder
    }

    /// The capture session model behind this state.
    pub closed spec fn spec_recorder(&self) -> SimpleAudioCapture {
        self.recorder
    }

    /// The transcription on display.
    pub fn transcription(&self) -> (r: &String)
        ensures
            r@ == self@.trans,
    {
        &self.trans
    }

    /// Whether a recording is running.
    pub fn recording(&self) -> (r: bool)
        ensures
            r == self@.recording,
    {
        self.is_recording
    }

    /// Step the state machine by one event.
    ///
    /// The record button toggles: it starts the capture session and
    /// asks for the device to open, or leaves the recording state
    /// keeping the captured audio and asks for the device to close.  A
    /// tick updates the clock and asks for a transcription exactly when
    /// one is due.
    pub fn update(&mut self, message: UiEvent) -> (action: UiAction)
        requires
            capture_wf(old(self)@.recorder),
        ensures
            capture_wf(final(self)@.recorder),
            message is OnBtnRecord && !old(self)@.recording ==> final(self)@ == (UiStateView {
                recording: true,
                recorder: spec_start(old(self)@.recorder),
                ..old(self)@
            }) && action == UiAction::StartCapture,
            message is OnBtnRecord && old(self)@.recording ==> final(self)@ == (UiStateView {
                recording: false,
                recorder: spec_pause(old(self)@.recorder),
                ..old(self)@
            }) && action == UiAction::StopCapture,
            message matches UiEvent::Tick(t) ==> final(self)@ == (UiStateView {
                clock_updated_at: t,
                ..old(self)@
            }) && action == (if spec_transcription_due(old(self)@, t) {
                UiAction::RunTranscription
            } else {
                UiAction::Stay
            }),
    {
        match message {
            UiEvent::OnBtnRecord => {
                if !self.is_recording {
                    self.is_recording = true;
                    self.recorder.start();
                    UiAction::StartCapture
                } else {
                    self.is_recording = false;
                    self.recorder.pause();
                    UiAction::StopCapture
                }
            },
            UiEvent::Tick(t) => {
                let due = if self.is_recording && t > self.trans_updated_at && t
                    - self.trans_updated_at > 3000 {
                    match self.recorder.get_duration() {
                        Some(d) => d >= 3000,
                        None => false,
                    }
                } else {
                    false
                };
                self.clock_updated_at = t;
                if due {
                    UiAction::RunTranscription
                } else {
                    UiAction::Stay
                }
            },
        }
    }

    /// Fold one engine output into the display, at clock time `now`.
    ///
    /// The combined transcript replaces the one on display.  When the
    /// transcript asks for the recording to end, the recording state is
    /// left and the capture session pauses; the caller then closes the
    /// device.
    pub fn transcribe(&mut self, output: &TranscribeOutput, now: u64) -> (stopped: bool)
        requires
            capture_wf(old(self)@.recorder),
        ensures
            capture_wf(final(self)@.recorder),
            stopped == spec_ui_stop_requested(output.combined@),
            final(self)@.trans == output.combined@,
            final(self)@.trans_updated_at == now,
            final(self)@.clock_updated_at == old(self)@.clock_updated_at,
            stopped ==> final(self)@.recording == false && final(self)@.recorder == spec_pause(
                old(self)@.recorder,
            ),
            !stopped ==> final(self)@.recording == old(self)@.recording && final(self)@.recorder
                == old(self)@.recorder,
    {
        self.trans = output.combined.clone();
        self.trans_updated_at = now;
        let stopped = matches_stop_phrase(self.trans.as_str(), "thats all")
            || matches_stop_phrase(self.trans.as_str(), "that is all")
            || matches_stop_phrase(self.trans.as_str(), "[blank audio]");
        if stopped {
            self.is_recording = false;
            self.recorder.pause();
        }
        stopped
    }
}

} // verus!
