//! The WAV container sink: stereo 16-bit PCM with a patchable header.
//!
//! The sink hands its caller the exact bytes to append to the file — a
//! 44-byte header whose two length fields start at zero, then two bytes per
//! sample — and, on finalization, the patches that make the header's
//! declared lengths agree with the data actually written. Finalizing twice
//! is a no-op: the second call returns nothing and changes nothing.

use crate::frame::{frame_payload, le2, le4, le_bytes_i16, lemma_payload_len, push_le_i16,
    push_le_u16, push_le_u32};
use vstd::prelude::*;

verus! {

/// Byte offset of the RIFF chunk length field inside the header.
pub const RIFF_SIZE_OFFSET: usize = 4;

/// Byte offset of the data chunk length field inside the header.
pub const DATA_SIZE_OFFSET: usize = 40;

/// The most data bytes the sink accepts, leaving room for the RIFF chunk
/// length (data plus 36 header bytes) in a 32-bit field.
pub const WAV_MAX_DATA_BYTES: u32 = 0xffff_ffc4;

/// The 44-byte header of a stereo 16-bit PCM WAV file that declares
/// `data_bytes` bytes of sample data.
pub open spec fn wav_header(sample_rate: u32, data_bytes: int) -> Seq<u8>
    recommends
        sample_rate <= 0x3fff_ffff,
        0 <= data_bytes <= WAV_MAX_DATA_BYTES,
{
    seq![0x52u8, 0x49u8, 0x46u8, 0x46u8]  // "RIFF"
     + le4(36 + data_bytes) + seq![0x57u8, 0x41u8, 0x56u8, 0x45u8]  // "WAVE"
     + seq![0x66u8, 0x6du8, 0x74u8, 0x20u8]  // "fmt "
     + le4(16)  // fmt chunk length
     + le2(1)  // PCM format tag
     + le2(2)  // channels
     + le4(sample_rate as int) + le4(4 * sample_rate as int)  // bytes per second
     + le2(4)  // block align
     + le2(16)  // bits per sample
     + seq![0x64u8, 0x61u8, 0x74u8, 0x61u8]  // "data"
     + le4(data_bytes)
}

/// The complete finalized file for the samples written so far: header with
/// correct lengths, then each sample as two little-endian bytes.
pub open spec fn wav_file(sample_rate: u32, samples: Seq<i16>) -> Seq<u8> {
    wav_header(sample_rate, 2 * samples.len() as int) + frame_payload(samples)
}

/// The header patches that finalization yields: the RIFF chunk length at
/// [`RIFF_SIZE_OFFSET`] and the data chunk length at [`DATA_SIZE_OFFSET`].
pub struct WavPatches {
    /// Four bytes to write at [`RIFF_SIZE_OFFSET`].
    pub riff_size: Vec<u8>,
    /// Four bytes to write at [`DATA_SIZE_OFFSET`].
    pub data_size: Vec<u8>,
}

/// The WAV sink: counts the data bytes appended to the file and remembers,
/// as ghost state, every sample written, so the finalized header's declared
/// lengths can be proved to match the data.
pub struct WavSink {
    /// The file's sample rate in Hz.
    pub sample_rate: u32,
    /// Bytes of sample data handed out so far.
    pub data_bytes: u32,
    /// Whether the header patches have been handed out.
    pub finalized: bool,
    /// Every sample written, in order.
    pub samples: Ghost<Seq<i16>>,
}

impl WavSink {
    /// Internal consistency: the byte count is exactly two bytes per
    /// written sample and leaves room for the RIFF length field.
    pub open spec fn wf(self) -> bool {
        &&& self.data_bytes as int == 2 * self.samples@.len()
        &&& self.data_bytes <= WAV_MAX_DATA_BYTES
        &&& 1 <= self.sample_rate <= 0x3fff_ffff
    }

    /// A fresh sink and the placeholder header to write at the start of
    /// the file: both length fields hold zero until finalization.
    pub fn new(sample_rate: u32) -> (r: (WavSink, Vec<u8>))
        requires
            1 <= sample_rate <= 0x3fff_ffff,
        ensures
            r.0.wf(),
            r.0.sample_rate == sample_rate,
            r.0.data_bytes == 0,
            !r.0.finalized,
            r.0.samples@ =~= Seq::<i16>::empty(),
            r.1@ == wav_header(sample_rate, 0),
    {
        let sink = WavSink {
            sample_rate,
            data_bytes: 0,
            finalized: false,
            samples: Ghost(Seq::empty()),
        };
        let header = wav_header_bytes(sample_rate, 0);
        (sink, header)
    }

    /// Accepts one 16-bit sample and returns the two bytes to append to
    /// the file's data chunk.
    pub fn write_sample(&mut self, s: i16) -> (bytes: Vec<u8>)
        requires
            old(self).wf(),
            !old(self).finalized,
            old(self).data_bytes + 2 <= WAV_MAX_DATA_BYTES,
        ensures
            final(self).wf(),
            !final(self).finalized,
            bytes@ == le_bytes_i16(s),
            final(self).samples@ == old(self).samples@.push(s),
            final(self).data_bytes == old(self).data_bytes + 2,
            final(self).sample_rate == old(self).sample_rate,
    {
        let mut bytes: Vec<u8> = Vec::new();
        push_le_i16(&mut bytes, s);
        self.data_bytes = self.data_bytes + 2;
        self.samples = Ghost(self.samples@.push(s));
        proof {
            assert(bytes@ =~= le_bytes_i16(s));
        }
        bytes
    }

    /// Finalizes the sink: the first call returns the header patches that
    /// make the file's declared lengths match the data written; any later
    /// call returns nothing and leaves the sink untouched.
    pub fn finalize(&mut self) -> (r: Option<WavPatches>)
        requires
            old(self).wf(),
        ensures
            final(self).wf(),
            old(self).finalized ==> r is None && *final(self) == *old(self),
            !old(self).finalized ==> {
                &&& r is Some
                &&& (r->Some_0).riff_size@ == le4(36 + old(self).data_bytes as int)
                &&& (r->Some_0).data_size@ == le4(old(self).data_bytes as int)
                &&& final(self).finalized
                &&& final(self).samples@ == old(self).samples@
                &&& final(self).data_bytes == old(self).data_bytes
                &&& final(self).sample_rate == old(self).sample_rate
            },
    {
        if self.finalized {
            return None;
        }
        self.finalized = true;
        let mut riff_size: Vec<u8> = Vec::new();
        push_le_u32(&mut riff_size, 36 + self.data_bytes);
        let mut data_size: Vec<u8> = Vec::new();
        push_le_u32(&mut data_size, self.data_bytes);
        proof {
            assert(riff_size@ =~= le4(36 + self.data_bytes as int));
            assert(data_size@ =~= le4(self.data_bytes as int));
        }
        Some(WavPatches { riff_size, data_size })
    }

    /// The bytes of the finalized file for everything written so far.
    pub open spec fn file_bytes(self) -> Seq<u8> {
        wav_file(self.sample_rate, self.samples@)
    }
}

/// The placeholder header bytes for a new file.
fn wav_header_bytes(sample_rate: u32, data_bytes: u32) -> (out: Vec<u8>)
    requires
        1 <= sample_rate <= 0x3fff_ffff,
        data_bytes <= WAV_MAX_DATA_BYTES,
    ensures
        out@ == wav_header(sample_rate, data_bytes as int),
{
    let mut out: Vec<u8> = Vec::new();
    out.push(0x52);
    out.push(0x49);
    out.push(0x46);
    out.push(0x46);
    push_le_u32(&mut out, 36 + data_bytes);
    out.push(0x57);
    out.push(0x41);
    out.push(0x56);
    out.push(0x45);
    out.push(0x66);
    out.push(0x6d);
    out.push(0x74);
    out.push(0x20);
    push_le_u32(&mut out, 16);
    push_le_u16(&mut out, 1);
    push_le_u16(&mut out, 2);
    push_le_u32(&mut out, sample_rate);
    push_le_u32(&mut out, 4 * sample_rate);
    push_le_u16(&mut out, 4);
    push_le_u16(&mut out, 16);
    out.push(0x64);
    out.push(0x61);
    out.push(0x74);
    out.push(0x61);
    push_le_u32(&mut out, data_bytes);
    proof {
        assert(out@ =~= wav_header(sample_rate, data_bytes as int));
    }
    out
}

/// The finalized file is internally consistent: it declares exactly the
/// data it carries. Its data chunk length field holds two bytes per sample
/// written, its RIFF length field holds that plus the 36 header bytes that
/// follow it, and the data chunk holds exactly the declared number of
/// bytes — two per sample, so the file's sample count equals the number of
/// samples written.
pub proof fn lemma_wav_file_consistent(w: WavSink)
    requires
        w.wf(),
    ensures
        w.file_bytes().len() == 44 + 2 * w.samples@.len(),
        w.file_bytes().subrange(40, 44) == le4(2 * w.samples@.len() as int),
        w.file_bytes().subrange(4, 8) == le4(36 + 2 * w.samples@.len() as int),
        w.file_bytes().skip(44) == frame_payload(w.samples@),
{
    lemma_payload_len(w.samples@);
    let f = w.file_bytes();
    assert(f.subrange(40, 44) =~= le4(2 * w.samples@.len() as int));
    assert(f.subrange(4, 8) =~= le4(36 + 2 * w.samples@.len() as int));
    assert(f.skip(44) =~= frame_payload(w.samples@));
}

/// Writing the finalization patches over the placeholder header yields
/// exactly the header that declares the actual data length: the file is
/// well formed after the two patches land, and no other byte moves.
pub proof fn lemma_header_patch(sample_rate: u32, data_bytes: u32)
    requires
        1 <= sample_rate <= 0x3fff_ffff,
        data_bytes <= WAV_MAX_DATA_BYTES,
    ensures
        wav_header(sample_rate, data_bytes as int) == wav_header(sample_rate, 0).subrange(0, 4)
            + le4(36 + data_bytes as int) + wav_header(sample_rate, 0).subrange(8, 40) + le4(
            data_bytes as int,
        ),
{
    let h0 = wav_header(sample_rate, 0);
    let h = wav_header(sample_rate, data_bytes as int);
    assert(h =~= h0.subrange(0, 4) + le4(36 + data_bytes as int) + h0.subrange(8, 40) + le4(
        data_bytes as int,
    ));
}

} // verus!
