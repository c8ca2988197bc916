//! Processing of captured audio buffers into mono fixed-point samples.
//!
//! The loopback capture path delivers raw interleaved buffers together
//! with the endpoint's mix format. A buffer the platform flags as silent
//! becomes one zero sample per frame (see
//! [`crate::sample::silence_samples`]). A 16-bit PCM buffer is decoded
//! here, little-endian, and reduced to mono by the arithmetic mean of each
//! frame's channels. A 32-bit float buffer's values are converted to fixed
//! point outside the library (floating point stays at the boundary) and
//! reduced with [`crate::sample::mono_reduce`]. Any other bit depth is a
//! fatal error for the capture source: its thread stops and the session
//! continues with this channel silent.

use crate::frame::{decode_i16_le, i16_from_le};
use crate::sample::{mono_of_frame, mono_reduce, sample_of_pcm16, pcm16_to_sample};
use vstd::arithmetic::div_mod::{lemma_fundamental_div_mod, lemma_mod_multiples_basic};
use vstd::prelude::*;

verus! {

/// How a captured buffer's samples are laid out, by the mix format's bit
/// depth: only 16-bit integer and 32-bit float are supported.
#[derive(Clone, Copy, Debug, PartialEq, Eq, Structural)]
pub enum SampleLayout {
    /// 16-bit signed integer PCM.
    Pcm16,
    /// 32-bit IEEE float.
    Float32,
}

/// A recoverable capture-source failure: the source is disabled for the
/// session and its channel stays silent.
#[derive(Clone, Copy, Debug, PartialEq, Eq, Structural)]
pub enum CaptureError {
    /// The endpoint's mix format has a bit depth this pipeline cannot
    /// decode.
    UnsupportedBitDepth { bits_per_sample: u16 },
}

/// Classifies a mix format's bit depth: 16 bits is integer PCM, 32 bits
/// is float; any other depth is the fatal capture error, reported with
/// the offending depth.
pub fn validate_bit_depth(bits_per_sample: u16) -> (r: Result<SampleLayout, CaptureError>)
    ensures
        bits_per_sample == 16 ==> r == Ok::<SampleLayout, CaptureError>(SampleLayout::Pcm16),
        bits_per_sample == 32 ==> r == Ok::<SampleLayout, CaptureError>(SampleLayout::Float32),
        bits_per_sample != 16 && bits_per_sample != 32 ==> r == Err::<SampleLayout, CaptureError>(
            CaptureError::UnsupportedBitDepth { bits_per_sample },
        ),
{
    if bits_per_sample == 16 {
        Ok(SampleLayout::Pcm16)
    } else if bits_per_sample == 32 {
        Ok(SampleLayout::Float32)
    } else {
        Err(CaptureError::UnsupportedBitDepth { bits_per_sample })
    }
}

/// The fixed-point sample that byte pair `k` of a little-endian 16-bit
/// PCM buffer stands for.
pub open spec fn pcm16_sample_at(bytes: Seq<u8>, k: int) -> int
    recommends
        0 <= k,
        2 * k + 1 < bytes.len(),
{
    sample_of_pcm16(i16_from_le(bytes[2 * k], bytes[2 * k + 1]))
}

/// Decodes a whole little-endian 16-bit PCM buffer into fixed-point
/// samples, in order.
pub fn decode_pcm16_samples(bytes: &Vec<u8>) -> (out: Vec<i32>)
    requires
        bytes@.len() % 2 == 0,
    ensures
        out@.len() == bytes@.len() as int / 2,
        forall|k: int| 0 <= k < out@.len() ==> (#[trigger] out@[k]) as int == pcm16_sample_at(
            bytes@,
            k,
        ),
{
    let total: usize = bytes.len();
    let count: usize = total / 2;
    let mut out: Vec<i32> = Vec::new();
    let mut k: usize = 0;
    proof {
        lemma_fundamental_div_mod(total as int, 2);
    }
    while k < count
        invariant
            0 <= k <= count,
            total == bytes@.len(),
            2 * count == total,
            count == bytes@.len() as int / 2,
            out@.len() == k,
            forall|j: int| 0 <= j < k ==> (#[trigger] out@[j]) as int == pcm16_sample_at(bytes@, j),
        decreases count - k,
    {
        let s = decode_i16_le(bytes[2 * k], bytes[2 * k + 1]);
        let q = pcm16_to_sample(s);
        out.push(q);
        k = k + 1;
    }
    out
}

/// The mono sample that frame `f` of a little-endian 16-bit PCM
/// interleaved buffer reduces to: the arithmetic mean of the frame's
/// channel samples.
pub open spec fn pcm16_frame_mono(bytes: Seq<u8>, channels: int, f: int) -> int
    recommends
        1 <= channels,
        0 <= f,
        2 * (f + 1) * channels <= bytes.len(),
{
    mono_of_frame(
        Seq::new(channels as nat, |c: int| (pcm16_sample_at(bytes, f * channels + c)) as i32),
    )
}

/// Decodes a little-endian 16-bit PCM interleaved buffer and reduces it to
/// one mono sample per frame, by the arithmetic mean of each frame's
/// channels normalized to the nominal amplitude range.
pub fn process_pcm16_buffer(bytes: &Vec<u8>, channels: usize) -> (out: Vec<i32>)
    requires
        1 <= channels <= 65535,
        bytes@.len() as int % (2 * channels as int) == 0,
    ensures
        out@.len() == bytes@.len() as int / (2 * channels as int),
        forall|f: int| 0 <= f < out@.len() ==> (#[trigger] out@[f]) as int == pcm16_frame_mono(
            bytes@,
            channels as int,
            f,
        ),
{
    proof {
        let len = bytes@.len() as int;
        let c = channels as int;
        lemma_fundamental_div_mod(len, 2 * c);
        let k = len / (2 * c);
        assert(len == 2 * c * k);
        assert(2 * c * k == 2 * (c * k)) by (nonlinear_arith);
        lemma_mod_multiples_basic(c * k, 2);
        assert((c * k) * 2 == 2 * (c * k)) by (nonlinear_arith);
        assert(len % 2 == 0);
    }
    let samples = decode_pcm16_samples(bytes);
    proof {
        let len = bytes@.len() as int;
        let c = channels as int;
        let k = len / (2 * c);
        assert(len / 2 == c * k) by {
            assert(len == (c * k) * 2) by (nonlinear_arith)
                requires
                    len == 2 * c * k,
            ;
            vstd::arithmetic::div_mod::lemma_div_by_multiple(c * k, 2);
        }
        lemma_mod_multiples_basic(k, c);
        assert(k * c == c * k) by (nonlinear_arith);
        assert(samples@.len() as int % c == 0);
    }
    let out = mono_reduce(&samples, channels);
    proof {
        let len = bytes@.len() as int;
        let c = channels as int;
        let k = len / (2 * c);
        assert(samples@.len() as int / c == k) by {
            assert(samples@.len() as int == k * c) by (nonlinear_arith)
                requires
                    samples@.len() as int == c * k,
            ;
            vstd::arithmetic::div_mod::lemma_div_by_multiple(k, c);
        }
        assert forall|f: int| 0 <= f < out@.len() implies (#[trigger] out@[f]) as int
            == pcm16_frame_mono(bytes@, c, f) by {
            let frame = samples@.subrange(f * c, (f + 1) * c);
            let model = Seq::new(c as nat, |ch: int| (pcm16_sample_at(bytes@, f * c + ch)) as i32);
            assert(0 <= f * c && (f + 1) * c <= samples@.len()) by (nonlinear_arith)
                requires
                    0 <= f,
                    f < k,
                    c >= 1,
                    samples@.len() as int == c * k,
            ;
            assert((f + 1) * c == f * c + c) by (nonlinear_arith);
            assert forall|ch: int| 0 <= ch < c implies frame[ch] == model[ch] by {
                assert(0 <= f * c + ch < samples@.len()) by (nonlinear_arith)
                    requires
                        0 <= f,
                        f < k,
                        0 <= ch < c,
                        c * k <= samples@.len(),
                ;
                assert(frame[ch] == samples@[f * c + ch]);
                assert(samples@[f * c + ch] as int == pcm16_sample_at(bytes@, f * c + ch));
            }
            assert(frame =~= model);
        }
    }
    out
}

} // verus!
