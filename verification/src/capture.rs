//! Model of one microphone capture session: the sample buffer, the
//! negotiated source format, and the recording flag.
//!
//! The session stores each device sample as an opaque 32-bit word (the
//! bit encoding of the device's sample value); the session never reads a
//! sample, it only appends, snapshots and clears them.  The thread that
//! talks to the sound device lives outside the library and drives this
//! model through `start`, `publish_format`, `push_samples` and
//! `capture_failed`.

use vstd::prelude::*;

verus! {

/// Mathematical view of a capture session.
pub struct CaptureView {
    pub data: Seq<u32>,
    pub sample_rate: Option<u32>,
    pub channels: Option<usize>,
    pub recording: bool,
}

/// The format fields are published together, by one successful device
/// negotiation, and describe a usable format.
pub open spec fn capture_wf(v: CaptureView) -> bool {
    &&& (v.sample_rate is Some <==> v.channels is Some)
    &&& (v.sample_rate matches Some(r) ==> r > 0)
    &&& (v.channels matches Some(c) ==> c > 0)
}

/// A session that has not captured anything yet.
pub open spec fn empty_capture() -> CaptureView {
    CaptureView { data: Seq::empty(), sample_rate: None, channels: None, recording: false }
}

/// `start`: request recording; a no-op when already recording.
pub open spec fn spec_start(v: CaptureView) -> CaptureView {
    CaptureView { recording: true, ..v }
}

/// `pause`: leave the recording state but keep every captured sample.
pub open spec fn spec_pause(v: CaptureView) -> CaptureView {
    CaptureView { recording: false, ..v }
}

/// `stop`: leave the recording state and drop the captured samples.
pub open spec fn spec_stop(v: CaptureView) -> CaptureView {
    CaptureView { recording: false, data: Seq::empty(), ..v }
}

/// `clear`: drop the captured samples and the negotiated format, so a
/// fresh recording starts with no residue from the previous one.
pub open spec fn spec_clear(v: CaptureView) -> CaptureView {
    CaptureView { data: Seq::empty(), sample_rate: None, channels: None, ..v }
}

/// Duration of the captured audio in milliseconds:
/// `1000 * samples / (sample_rate * channels)`.
pub open spec fn spec_duration_ms(v: CaptureView) -> nat
    recommends
        v.sample_rate is Some,
        v.channels is Some,
        capture_wf(v),
{
    (1000 * v.data.len()) / ((v.sample_rate->0 as nat) * (v.channels->0 as nat))
}

/// One capture session.  At most one device stream feeds it at a time;
/// the buffer grows only while recording and is cleared only by `stop`
/// and `clear`.
pub struct SimpleAudioCapture {
    audio_data: Vec<u32>,
    sample_rate: Option<u32>,
    channels: Option<usize>,
    is_recording: bool,
}

impl View for SimpleAudioCapture {
    type V = CaptureView;

    closed spec fn view(&self) -> CaptureView {
        CaptureView {
            data: self.audio_data@,
            sample_rate: self.sample_rate,
            channels: self.channels,
            recording: self.is_recording,
        }
    }
}

impl SimpleAudioCapture {
    /// A fresh, idle session with an empty buffer and no format yet.
    pub fn new() -> (s: Self)
        ensures
            s@ == empty_capture(),
            capture_wf(s@),
    {
        let s = SimpleAudioCapture {
            audio_data: Vec::new(),
            sample_rate: None,
            channels: None,
            is_recording: false,
        };
        proof {
            assert(s@ =~= empty_capture());
        }
        s
    }

    /// Request recording.  Idempotent: a session that is already
    /// recording is left untouched.
    pub fn start(&mut self)
        ensures
            final(self)@ == spec_start(old(self)@),
            capture_wf(old(self)@) ==> capture_wf(final(self)@),
    {
        self.is_recording = true;
        proof {
            assert(self@ =~= spec_start(old(self)@));
        }
    }

    /// Publish the format the device negotiation resolved.  Called once
    /// per recording, by the capture thread, before any samples arrive.
    pub fn publish_format(&mut self, sample_rate: u32, channels: usize)
        requires
            sample_rate > 0,
            channels > 0,
        ensures
            final(self)@ == (CaptureView {
                sample_rate: Some(sample_rate),
                channels: Some(channels),
                ..old(self)@
            }),
            capture_wf(final(self)@),
    {
        self.sample_rate = Some(sample_rate);
        self.channels = Some(channels);
        proof {
            assert(self@ =~= (CaptureView {
                sample_rate: Some(sample_rate),
                channels: Some(channels),
                ..old(self)@
            }));
        }
    }

    /// Append one block of interleaved sample words delivered by the
    /// device stream.  Only the capture thread appends, and only while
    /// the session is recording.
    pub fn push_samples(&mut self, block: &[u32])
        requires
            old(self)@.recording,
        ensures
            final(self)@ == (CaptureView { data: old(self)@.data + block@, ..old(self)@ }),
            capture_wf(old(self)@) ==> capture_wf(final(self)@),
    {
        let mut i: usize = 0;
        while i < block.len()
            invariant
                i <= block.len(),
                self.audio_data@ == old(self).audio_data@ + block@.take(i as int),
                self.sample_rate == old(self).sample_rate,
                self.channels == old(self).channels,
                self.is_recording == old(self).is_recording,
            decreases block.len() - i,
        {
            let w = block[i];
            self.audio_data.push(w);
            proof {
                assert(block@.take(i + 1) =~= block@.take(i as int).push(block@[i as int]));
            }
            i = i + 1;
        }
        proof {
            assert(block@.take(block@.len() as int) =~= block@);
            assert(self@ =~= (CaptureView { data: old(self)@.data + block@, ..old(self)@ }));
        }
    }

    /// Record that device or stream negotiation failed: recording never
    /// begins, everything else is left as it was.
    pub fn capture_failed(&mut self)
        ensures
            final(self)@ == spec_pause(old(self)@),
            capture_wf(old(self)@) ==> capture_wf(final(self)@),
    {
        self.is_recording = false;
        proof {
            assert(self@ =~= spec_pause(old(self)@));
        }
    }

    /// Leave the recording state but keep the buffer, so the caller can
    /// transcribe what was captured and possibly resume.
    pub fn pause(&mut self)
        ensures
            final(self)@ == spec_pause(old(self)@),
            capture_wf(old(self)@) ==> capture_wf(final(self)@),
    {
        self.is_recording = false;
        proof {
            assert(self@ =~= spec_pause(old(self)@));
        }
    }

    /// End the recording definitively: leave the recording state and
    /// reset the buffer to empty.
    pub fn stop(&mut self)
        ensures
            final(self)@ == spec_stop(old(self)@),
            capture_wf(old(self)@) ==> capture_wf(final(self)@),
    {
        self.is_recording = false;
        self.audio_data = Vec::new();
        proof {
            assert(self@ =~= spec_stop(old(self)@));
        }
    }

    /// Reset the buffer and the negotiated format, independent of the
    /// recording state.
    pub fn clear(&mut self)
        ensures
            final(self)@ == spec_clear(old(self)@),
            capture_wf(final(self)@),
    {
        self.audio_data = Vec::new();
        self.sample_rate = None;
        self.channels = None;
        proof {
            assert(self@ =~= spec_clear(old(self)@));
        }
    }

    /// Snapshot of the captured sample words; unavailable until the
    /// first successful device negotiation.
    pub fn get_audio_data(&self) -> (r: Option<Vec<u32>>)
        ensures
            self@.sample_rate is Some ==> (r matches Some(v) && v@ == self@.data),
            self@.sample_rate is None ==> r is None,
    {
        match self.sample_rate {
            Some(_) => Some(self.audio_data.clone()),
            None => None,
        }
    }

    /// Whether the session is recording.
    pub fn get_is_recording(&self) -> (r: bool)
        ensures
            r == self@.recording,
    {
        self.is_recording
    }

    /// The sample rate the device negotiation resolved, if any yet.
    pub fn get_sample_rate(&self) -> (r: Option<u32>)
        ensures
            r == self@.sample_rate,
    {
        self.sample_rate
    }

    /// The channel count the device negotiation resolved, if any yet.
    pub fn get_channels(&self) -> (r: Option<usize>)
        ensures
            r == self@.channels,
    {
        self.channels
    }

    /// Duration of the captured audio in milliseconds, unavailable until
    /// the first successful device negotiation.  The result saturates at
    /// `u64::MAX` (unreachable for any real recording).
    pub fn get_duration(&self) -> (r: Option<u64>)
        requires
            capture_wf(self@),
        ensures
            self@.sample_rate is None ==> r is None,
            self@.sample_rate is Some ==> (r matches Some(d) && {
                let ms = spec_duration_ms(self@);
                if ms <= u64::MAX { d == ms } else { d == u64::MAX }
            }),
    {
        match (self.sample_rate, self.channels) {
            (Some(rate), Some(ch)) => {
                let num: u128 = 1000u128 * (self.audio_data.len() as u128);
                proof {
                    assert(1 <= (rate as u128) * (ch as u128) && (rate as u128) * (ch as u128)
                        < 0x1_0000_0000_0000_0000_0000_0000u128) by (nonlinear_arith)
                        requires
                            1 <= rate as u128 <= 0xFFFF_FFFFu128,
                            1 <= ch as u128 <= 0xFFFF_FFFF_FFFF_FFFFu128,
                    ;
                }
                let den: u128 = (rate as u128) * (ch as u128);
                let q: u128 = num / den;
                if q <= u64::MAX as u128 {
                    Some(q as u64)
                } else {
                    Some(u64::MAX)
                }
            },
            _ => None,
        }
    }
}

/// Stopping a session always leaves an empty buffer behind: a snapshot
/// taken after `stop` sees no samples.  Pausing preserves the buffer
/// exactly as it stood at the moment of the pause.
pub proof fn lemma_stop_clears_pause_preserves(v: CaptureView)
    ensures
        spec_stop(v).data =~= Seq::<u32>::empty(),
        spec_pause(v).data == v.data,
{
}

} // verus!
