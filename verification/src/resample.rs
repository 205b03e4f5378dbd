//! Bookkeeping of sample-rate conversion.
//!
//! The windowed-sinc filter itself runs outside the library, on the
//! de-interleaved channels this module produces; the module owns what is
//! provable about the conversion: input validation, the exact output
//! length `floor(frames * target_rate / source_rate)`, the separation of
//! an interleaved buffer into channels, and the trimming of the filter's
//! start-up delay followed by re-interleaving in the original channel
//! order.  When source and target rate agree, the conversion is the
//! identity.  Samples are opaque 32-bit words throughout.

use vstd::arithmetic::div_mod::{lemma_div_by_multiple, lemma_fundamental_div_mod, lemma_mod_bound};
use vstd::arithmetic::mul::lemma_mul_inequality;
use vstd::prelude::*;

verus! {

/// Number of frames in an interleaved buffer of `len` samples with
/// `channels` samples to a frame.
pub open spec fn spec_frames(len: nat, channels: nat) -> nat
    recommends
        channels > 0,
{
    len / channels
}

/// Frame count of an interleaved buffer.
pub fn frame_count(len: usize, channels: usize) -> (n: usize)
    requires
        channels > 0,
    ensures
        n == spec_frames(len as nat, channels as nat),
{
    len / channels
}

/// Why a conversion request was rejected.
#[derive(Clone, Copy, Debug, PartialEq, Eq, Structural)]
pub enum ResampleError {
    /// The channel count was zero.
    ZeroChannels,
    /// The buffer length was not a multiple of the channel count.
    LengthNotMultiple,
    /// The filter could not be constructed for the requested ratio.
    FilterConstruction,
}

/// Frames a conversion of `frames` input frames from `source_rate` to
/// `target_rate` must deliver: `floor(frames * target_rate / source_rate)`.
pub open spec fn spec_expected_frames(frames: nat, source_rate: nat, target_rate: nat) -> nat
    recommends
        source_rate > 0,
{
    (frames * target_rate) / source_rate
}

/// Frames that remain from one filtered channel of `chan_len` frames
/// after dropping the filter's `delay` leading frames and keeping at
/// most `expected` frames.
pub open spec fn spec_trimmed_frames(chan_len: nat, delay: nat, expected: nat) -> nat {
    if delay >= chan_len {
        0
    } else if chan_len - delay < expected {
        (chan_len - delay) as nat
    } else {
        expected
    }
}

/// Converting at an unchanged rate changes nothing, so the owed frame
/// count equals the input frame count.
pub proof fn lemma_expected_frames_identity(frames: nat, rate: nat)
    requires
        rate > 0,
    ensures
        spec_expected_frames(frames, rate, rate) == frames,
{
    lemma_div_by_multiple(frames as int, rate as int);
}

/// Check a conversion request the way the converter does: the channel
/// count must be positive and the buffer must hold whole frames.
pub fn validate_resample_input(len: usize, channels: usize) -> (r: Result<(), ResampleError>)
    ensures
        r is Ok <==> channels >= 1 && len % channels == 0,
        r == Err::<(), ResampleError>(ResampleError::ZeroChannels) <==> channels == 0,
        r == Err::<(), ResampleError>(ResampleError::LengthNotMultiple) <==> channels >= 1
            && len % channels != 0,
{
    if channels == 0 {
        Err(ResampleError::ZeroChannels)
    } else if len % channels != 0 {
        Err(ResampleError::LengthNotMultiple)
    } else {
        Ok(())
    }
}

/// Exact number of frames the conversion owes for this input.
pub fn expected_output_frames(frames: usize, source_rate: u32, target_rate: u32) -> (n: usize)
    requires
        source_rate > 0,
        spec_expected_frames(frames as nat, source_rate as nat, target_rate as nat) <= usize::MAX,
    ensures
        n == spec_expected_frames(frames as nat, source_rate as nat, target_rate as nat),
{
    proof {
        assert((frames as u128) * (target_rate as u128)
            < 0x1_0000_0000_0000_0000_0000_0000u128) by (nonlinear_arith)
            requires
                frames as u128 <= 0xFFFF_FFFF_FFFF_FFFFu128,
                target_rate as u128 <= 0xFFFF_FFFFu128,
        ;
    }
    let num: u128 = (frames as u128) * (target_rate as u128);
    let q: u128 = num / (source_rate as u128);
    q as usize
}

/// The identity conversion: source and target rate agree, so the buffer
/// is returned unchanged.
pub fn resample_identity(samples: &Vec<u32>) -> (out: Vec<u32>)
    ensures
        out@ == samples@,
{
    samples.clone()
}

/// Separate an interleaved buffer into one sample sequence per channel,
/// keeping channel order: channel `c` receives the samples at indices
/// `f * channels + c`.  A trailing partial frame, if any, is dropped.
pub fn deinterleave(samples: &Vec<u32>, channels: usize) -> (out: Vec<Vec<u32>>)
    requires
        channels >= 1,
    ensures
        out@.len() == channels,
        forall|c: int|
            0 <= c < channels ==> (#[trigger] out@[c])@.len() == spec_frames(
                samples@.len(),
                channels as nat,
            ),
        forall|c: int, f: int|
            0 <= c < channels && 0 <= f < spec_frames(samples@.len(), channels as nat)
                ==> (#[trigger] out@[c]@[f]) == samples@[f * (channels as int) + c],
{
    let frames = frame_count(samples.len(), channels);
    proof {
        let len = samples@.len() as int;
        let ch = channels as int;
        lemma_fundamental_div_mod(len, ch);
        lemma_mod_bound(len, ch);
        assert(frames as int == len / ch);
        assert((frames as int) * ch == ch * (len / ch)) by (nonlinear_arith)
            requires
                frames as int == len / ch,
        ;
        assert((frames as int) * (channels as int) <= samples@.len());
    }
    let mut out: Vec<Vec<u32>> = Vec::new();
    let mut c: usize = 0;
    while c < channels
        invariant
            c <= channels,
            channels >= 1,
            frames == spec_frames(samples@.len(), channels as nat),
            (frames as int) * (channels as int) <= samples@.len(),
            out@.len() == c,
            forall|c2: int| 0 <= c2 < c ==> (#[trigger] out@[c2])@.len() == frames,
            forall|c2: int, f: int|
                0 <= c2 < c && 0 <= f < frames ==> (#[trigger] out@[c2]@[f]) == samples@[f
                    * (channels as int) + c2],
        decreases channels - c,
    {
        let mut chan: Vec<u32> = Vec::new();
        let mut f: usize = 0;
        while f < frames
            invariant
                f <= frames,
                c < channels,
                (frames as int) * (channels as int) <= samples@.len(),
                chan@.len() == f,
                forall|j: int|
                    0 <= j < f ==> (#[trigger] chan@[j]) == samples@[j * (channels as int) + c],
            decreases frames - f,
        {
            proof {
                assert(samples.len() == samples@.len());
                assert(f * (channels as int) + c < samples@.len()) by (nonlinear_arith)
                    requires
                        0 <= c < channels as int,
                        0 <= f < frames as int,
                        (frames as int) * (channels as int) <= samples@.len(),
                ;
            }
            let idx: usize = f * channels + c;
            chan.push(samples[idx]);
            f = f + 1;
        }
        out.push(chan);
        c = c + 1;
    }
    out
}

/// Re-interleave filtered channels after dropping the filter's `delay`
/// leading frames and truncating to at most `expected` frames per
/// channel.  Frame `f` of the result holds, channel by channel in the
/// original order, the samples the filter produced at position
/// `delay + f`.
///
/// When every channel holds at least `delay + expected` frames — the
/// filter produced the whole owed window — exactly
/// `expected * channels` samples leave.
pub fn trim_and_interleave(resampled: &Vec<Vec<u32>>, delay: usize, expected: usize) -> (out: Vec<
    u32,
>)
    requires
        resampled@.len() >= 1,
        forall|c: int|
            0 <= c < resampled@.len() ==> (#[trigger] resampled@[c])@.len()
                == resampled@[0]@.len(),
        resampled@.len() * expected <= usize::MAX,
    ensures
        ({
            let channels = resampled@.len() as int;
            let take = spec_trimmed_frames(resampled@[0]@.len(), delay as nat, expected as nat);
            &&& out@.len() == take * channels
            &&& forall|f: int, c: int|
                0 <= f < take && 0 <= c < channels ==> (#[trigger] out@[f * channels + c])
                    == resampled@[c]@[delay + f]
            &&& (resampled@[0]@.len() >= delay + expected ==> out@.len() == expected * channels)
        }),
{
    let channels = resampled.len();
    let chan_len = resampled[0].len();
    let take: usize = if delay >= chan_len {
        0
    } else if chan_len - delay < expected {
        chan_len - delay
    } else {
        expected
    };
    proof {
        assert(take <= expected);
        lemma_mul_inequality(take as int, expected as int, channels as int);
        assert((expected as int) * (channels as int) == (channels as int) * (expected as int))
            by (nonlinear_arith);
    }
    let mut out: Vec<u32> = Vec::new();
    let mut f: usize = 0;
    while f < take
        invariant
            f <= take,
            channels == resampled@.len(),
            channels >= 1,
            chan_len == resampled@[0]@.len(),
            forall|c: int|
                0 <= c < channels ==> (#[trigger] resampled@[c])@.len() == chan_len,
            take == spec_trimmed_frames(chan_len as nat, delay as nat, expected as nat),
            (take as int) * (channels as int) <= usize::MAX,
            out@.len() == f * channels,
            forall|f2: int, c: int|
                0 <= f2 < f && 0 <= c < channels ==> (#[trigger] out@[f2 * (channels as int) + c])
                    == resampled@[c]@[delay + f2],
        decreases take - f,
    {
        proof {
            lemma_mul_inequality(f as int + 1, take as int, channels as int);
            assert((f as int + 1) * (channels as int) == f * (channels as int) + channels)
                by (nonlinear_arith);
        }
        let mut frame: Vec<u32> = Vec::new();
        let mut c: usize = 0;
        while c < channels
            invariant
                c <= channels,
                f < take,
                channels == resampled@.len(),
                chan_len == resampled@[0]@.len(),
                forall|c2: int|
                    0 <= c2 < channels ==> (#[trigger] resampled@[c2])@.len() == chan_len,
                take == spec_trimmed_frames(chan_len as nat, delay as nat, expected as nat),
                frame@.len() == c,
                forall|c2: int|
                    0 <= c2 < c ==> (#[trigger] frame@[c2]) == resampled@[c2]@[delay + f],
            decreases channels - c,
        {
            let row = &resampled[c];
            let w = row[delay + f];
            frame.push(w);
            c = c + 1;
        }
        let ghost out_before = out@;
        let ghost frame_before = frame@;
        out.append(&mut frame);
        proof {
            let ch = channels as int;
            assert(out@ == out_before + frame_before);
            assert forall|f2: int, c2: int|
                0 <= f2 < f + 1 && 0 <= c2 < ch implies #[trigger] out@[f2 * ch + c2]
                == resampled@[c2]@[delay + f2] by {
                if f2 < f {
                    lemma_mul_inequality(f2 + 1, f as int, ch);
                    assert((f2 + 1) * ch == f2 * ch + ch) by (nonlinear_arith);
                    assert(f2 * ch + c2 < f * ch);
                    assert(out@[f2 * ch + c2] == out_before[f2 * ch + c2]);
                } else {
                    assert(f2 == f);
                    assert(out@[f2 * ch + c2] == frame_before[c2]);
                }
            };
        }
        f = f + 1;
    }
    proof {
        if chan_len >= delay + expected {
            assert(take == expected);
        }
    }
    out
}

} // verus!
