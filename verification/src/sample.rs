//! Fixed-point mono samples and their reduction and emission arithmetic.
//!
//! A sample is an `i32` in Q16.16 fixed point: the integer `q` stands for
//! the amplitude `q / 65536`, so the nominal range `[-1.0, 1.0]` is
//! `[-65536, 65536]`. Capture may deliver values outside that range; they
//! are clamped only when a sample is emitted as 16-bit PCM.

use vstd::arithmetic::div_mod::{
    lemma_div_is_ordered, lemma_div_multiples_vanish, lemma_fundamental_div_mod,
    lemma_hoist_over_denominator,
};
use vstd::prelude::*;

verus! {

/// A sample clamped to the nominal amplitude range `[-1.0, 1.0]`.
pub open spec fn clamp_sample(q: int) -> int {
    if q < -65536 {
        -65536
    } else if q > 65536 {
        65536
    } else {
        q
    }
}

/// The 16-bit PCM value emitted for a sample: clamp to the nominal range,
/// scale by 32767, round toward negative infinity.
pub open spec fn pcm16_of_sample(q: int) -> int {
    (clamp_sample(q) * 32767) / 65536
}

/// The fixed-point sample for an incoming 16-bit PCM value: `s / 32767`
/// in Q16.16, rounded toward negative infinity.
pub open spec fn sample_of_pcm16(s: int) -> int {
    (s * 65536) / 32767
}

/// The exact sum of a frame's channel samples.
pub open spec fn sum_samples(s: Seq<i32>) -> int
    decreases s.len(),
{
    if s.len() == 0 {
        0
    } else {
        sum_samples(s.drop_last()) + s.last()
    }
}

/// The mono reduction of one frame: the arithmetic mean of its channel
/// samples, rounded toward negative infinity.
pub open spec fn mono_of_frame(frame: Seq<i32>) -> int
    recommends
        frame.len() > 0,
{
    sum_samples(frame) / frame.len() as int
}

/// Floor division of `a` by a positive divisor of at most 2^16, carried
/// out on machine integers by shifting the dividend into the nonnegative
/// range first.
fn floor_div_i64(a: i64, d: u32) -> (q: i64)
    requires
        1 <= d <= 65536,
        -(0x8000_0000i64 * d as i64) <= a <= 0x8000_0000i64 * d as i64,
    ensures
        q == a as int / d as int,
        -0x8000_0000 <= q <= 0x8000_0000,
{
    let off: i64 = 0x8000_0000i64 * (d as i64);
    let shifted: u64 = (a + off) as u64;
    let quot: u64 = shifted / (d as u64);
    proof {
        lemma_hoist_over_denominator(a as int, 0x8000_0000, d as nat);
        assert(shifted as int / d as int == a as int / d as int + 0x8000_0000);
        lemma_div_is_ordered(shifted as int, 0x1_0000_0000 * d as int, d as int);
        lemma_div_multiples_vanish(0x1_0000_0000, d as int);
        lemma_div_is_ordered(0, shifted as int, d as int);
    }
    quot as i64 - 0x8000_0000
}

/// Emits a sample as 16-bit PCM: clamp to the nominal range and scale by
/// the maximum positive 16-bit magnitude.
pub fn sample_to_pcm16(q: i32) -> (r: i16)
    ensures
        r as int == pcm16_of_sample(q as int),
        -32767 <= r as int <= 32767,
{
    let c: i32 = if q < -65536 {
        -65536
    } else if q > 65536 {
        65536
    } else {
        q
    };
    let scaled: i64 = (c as i64) * 32767;
    let r64: i64 = floor_div_i64(scaled, 65536);
    proof {
        lemma_div_multiples_vanish(-32767, 65536);
        lemma_div_multiples_vanish(32767, 65536);
        lemma_div_is_ordered(-32767 * 65536, scaled as int, 65536);
        lemma_div_is_ordered(scaled as int, (32767 * 65536) as int, 65536);
    }
    r64 as i16
}

/// Converts an incoming 16-bit PCM value to a fixed-point sample.
pub fn pcm16_to_sample(s: i16) -> (q: i32)
    ensures
        q as int == sample_of_pcm16(s as int),
        -65539 <= q <= 65536,
{
    let scaled: i64 = (s as i64) * 65536;
    let q64: i64 = floor_div_i64(scaled, 32767);
    proof {
        lemma_div_multiples_vanish(-65539, 32767);
        lemma_div_multiples_vanish(65536, 32767);
        lemma_div_is_ordered(-65539 * 32767, scaled as int, 32767);
        lemma_div_is_ordered(scaled as int, (65536 * 32767) as int, 32767);
    }
    q64 as i32
}

/// Emitted 16-bit samples are clamped: no amplitude ever leaves the 16-bit
/// range, and every amplitude at or beyond the nominal range maps to the
/// extreme emitted value.
pub proof fn lemma_emission_clamps(q: int)
    ensures
        -32767 <= pcm16_of_sample(q) <= 32767,
        q >= 65536 ==> pcm16_of_sample(q) == 32767,
        q <= -65536 ==> pcm16_of_sample(q) == -32767,
{
    let c = clamp_sample(q);
    lemma_div_multiples_vanish(-32767, 65536);
    lemma_div_multiples_vanish(32767, 65536);
    lemma_div_is_ordered(-32767 * 65536, c * 32767, 65536);
    lemma_div_is_ordered(c * 32767, (32767 * 65536) as int, 65536);
}

/// The mono reduction is the arithmetic mean of the frame's channels:
/// scaled back up by the channel count it differs from the exact channel
/// sum only by the rounding of the division.
pub proof fn lemma_mono_is_mean(frame: Seq<i32>)
    requires
        frame.len() > 0,
    ensures
        frame.len() * mono_of_frame(frame) <= sum_samples(frame),
        sum_samples(frame) < frame.len() * mono_of_frame(frame) + frame.len(),
{
    let n = frame.len() as int;
    let s = sum_samples(frame);
    lemma_fundamental_div_mod(s, n);
}

/// The arithmetic mean of one frame's channel samples, over the samples
/// `samples[start .. start + channels]`.
pub fn mono_mix_range(samples: &Vec<i32>, start: usize, channels: usize) -> (m: i32)
    requires
        1 <= channels <= 65535,
        start + channels <= samples@.len(),
    ensures
        m as int == mono_of_frame(samples@.subrange(start as int, start as int + channels as int)),
{
    let ghost frame = samples@.subrange(start as int, start as int + channels as int);
    let total: usize = samples.len();
    let mut acc: i64 = 0;
    let mut i: usize = 0;
    while i < channels
        invariant
            0 <= i <= channels,
            1 <= channels <= 65535,
            start + channels <= total,
            total == samples@.len(),
            frame == samples@.subrange(start as int, start as int + channels as int),
            acc == sum_samples(frame.subrange(0, i as int)),
            -0x8000_0000i64 * i as i64 <= acc <= 0x7fff_ffffi64 * i as i64,
        decreases channels - i,
    {
        proof {
            assert(frame.subrange(0, i as int + 1).drop_last() =~= frame.subrange(0, i as int));
            assert(frame.subrange(0, i as int + 1).last() == samples@[start as int + i as int]);
        }
        acc = acc + samples[start + i] as i64;
        i = i + 1;
    }
    proof {
        assert(frame.subrange(0, channels as int) =~= frame);
    }
    let m64: i64 = floor_div_i64(acc, channels as u32);
    proof {
        let n = channels as int;
        let s = sum_samples(frame);
        lemma_div_multiples_vanish(-0x8000_0000, n);
        lemma_div_multiples_vanish(0x7fff_ffff, n);
        lemma_div_is_ordered(-0x8000_0000 * n, s, n);
        lemma_div_is_ordered(s, 0x7fff_ffff * n, n);
    }
    m64 as i32
}

/// Reduces an interleaved multi-channel buffer to one mono sample per
/// frame, by the arithmetic mean of each frame's channels.
pub fn mono_reduce(samples: &Vec<i32>, channels: usize) -> (out: Vec<i32>)
    requires
        1 <= channels <= 65535,
        samples@.len() as int % channels as int == 0,
    ensures
        out@.len() == samples@.len() as int / channels as int,
        forall|f: int|
            0 <= f < out@.len() ==> out@[f] as int == mono_of_frame(
                samples@.subrange(f * channels as int, (f + 1) * channels as int),
            ),
{
    let total: usize = samples.len();
    let num_frames: usize = total / channels;
    let mut out: Vec<i32> = Vec::new();
    let mut f: usize = 0;
    proof {
        lemma_fundamental_div_mod(samples@.len() as int, channels as int);
        assert(num_frames * channels == channels * num_frames) by (nonlinear_arith);
    }
    while f < num_frames
        invariant
            0 <= f <= num_frames,
            1 <= channels <= 65535,
            total == samples@.len(),
            num_frames * channels == total,
            num_frames == samples@.len() as int / channels as int,
            out@.len() == f,
            forall|k: int|
                0 <= k < f ==> out@[k] as int == mono_of_frame(
                    samples@.subrange(k * channels as int, (k + 1) * channels as int),
                ),
        decreases num_frames - f,
    {
        proof {
            assert(f * channels + channels <= num_frames * channels) by (nonlinear_arith)
                requires
                    f + 1 <= num_frames,
                    channels >= 1,
            ;
            assert((f + 1) * channels == f * channels + channels) by (nonlinear_arith);
            assert(f * channels + channels <= total);
        }
        let m = mono_mix_range(samples, f * channels, channels);
        out.push(m);
        f = f + 1;
    }
    out
}

/// A platform-flagged silent buffer of `num_frames` frames becomes exactly
/// `num_frames` zero-valued mono samples: the time axis is preserved.
pub fn silence_samples(num_frames: usize) -> (out: Vec<i32>)
    ensures
        out@.len() == num_frames,
        forall|i: int| 0 <= i < num_frames ==> out@[i] == 0i32,
{
    let mut out: Vec<i32> = Vec::new();
    let mut i: usize = 0;
    while i < num_frames
        invariant
            0 <= i <= num_frames,
            out@.len() == i,
            forall|k: int| 0 <= k < i ==> out@[k] == 0i32,
        decreases num_frames - i,
    {
        out.push(0);
        i = i + 1;
    }
    out
}

} // verus!

