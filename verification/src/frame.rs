//! The framed wire format and the stream sink that emits it.
//!
//! A wire frame is a 12-byte header followed by the payload: a 4-byte magic
//! marker, a 4-byte little-endian sequence number, a 4-byte little-endian
//! payload length in bytes, then each 16-bit sample little-endian in
//! stereo-interleaved order. [`FrameStream`] stages stereo pairs until a
//! configured frame's worth is ready, emits the frame's exact bytes, and
//! counts sequence numbers up from zero, wrapping past the 32-bit maximum.

use vstd::arithmetic::div_mod::{lemma_add_mod_noop, lemma_div_denominator, lemma_div_is_ordered,
    lemma_fundamental_div_mod, lemma_mod_division_less_than_divisor, lemma_small_mod};
use vstd::prelude::*;

verus! {

/// The four magic bytes that open every wire frame: `S`, `E`, `L`, `L`.
pub open spec fn frame_magic() -> Seq<u8> {
    seq![0x53u8, 0x45u8, 0x4cu8, 0x4cu8]
}

/// The four little-endian bytes of a 32-bit quantity given as an integer.
pub open spec fn le4(x: int) -> Seq<u8>
    recommends
        0 <= x < 0x1_0000_0000,
{
    seq![(x % 256) as u8, (x / 256 % 256) as u8, (x / 65536 % 256) as u8, (x / 16777216 % 256) as u8]
}

/// The two little-endian bytes of a 16-bit quantity given as an integer.
pub open spec fn le2(x: int) -> Seq<u8>
    recommends
        0 <= x < 0x1_0000,
{
    seq![(x % 256) as u8, (x / 256 % 256) as u8]
}

/// The four little-endian bytes of a 32-bit value.
pub open spec fn le_bytes_u32(x: u32) -> Seq<u8> {
    le4(x as int)
}

/// A 16-bit sample reread as its unsigned two's-complement value.
pub open spec fn u16_of_i16(s: i16) -> int {
    if s >= 0 {
        s as int
    } else {
        s as int + 65536
    }
}

/// The two little-endian bytes of a 16-bit sample.
pub open spec fn le_bytes_i16(s: i16) -> Seq<u8> {
    le2(u16_of_i16(s))
}

/// The 16-bit value stored little-endian in two bytes.
pub open spec fn i16_from_le(b0: u8, b1: u8) -> int {
    let v = b0 as int + 256 * b1 as int;
    if v < 32768 {
        v
    } else {
        v - 65536
    }
}

/// Decodes one little-endian 16-bit sample.
pub fn decode_i16_le(b0: u8, b1: u8) -> (s: i16)
    ensures
        s as int == i16_from_le(b0, b1),
{
    let v: u32 = b0 as u32 + 256 * (b1 as u32);
    if v < 32768 {
        v as i16
    } else {
        (v as i32 - 65536) as i16
    }
}

/// The 32-bit value stored little-endian in four bytes.
pub open spec fn u32_from_le(b: Seq<u8>) -> int
    recommends
        b.len() == 4,
{
    b[0] + 256 * b[1] + 65536 * b[2] + 16777216 * b[3]
}

/// A frame's payload: each sample as two little-endian bytes, in order.
pub open spec fn frame_payload(samples: Seq<i16>) -> Seq<u8>
    decreases samples.len(),
{
    if samples.len() == 0 {
        Seq::empty()
    } else {
        frame_payload(samples.drop_last()) + le_bytes_i16(samples.last())
    }
}

/// The complete wire frame for a sample batch: magic, sequence number,
/// payload length in bytes, payload.
pub open spec fn frame_bytes(samples: Seq<i16>, seq_no: u32) -> Seq<u8>
    recommends
        2 * samples.len() <= 0xffff_ffff,
{
    frame_magic() + le_bytes_u32(seq_no) + le_bytes_u32((2 * samples.len()) as u32)
        + frame_payload(samples)
}

/// The payload takes exactly two bytes per sample.
pub proof fn lemma_payload_len(samples: Seq<i16>)
    ensures
        frame_payload(samples).len() == 2 * samples.len(),
    decreases samples.len(),
{
    if samples.len() > 0 {
        lemma_payload_len(samples.drop_last());
    }
}

/// Every frame's declared payload length is twice its sample count, and
/// the bytes that follow the 12-byte header are exactly that many: the
/// length field never disagrees with the payload it announces.
pub proof fn lemma_frame_length(samples: Seq<i16>, seq_no: u32)
    requires
        2 * samples.len() <= 0xffff_ffff,
    ensures
        frame_bytes(samples, seq_no).len() == 12 + 2 * samples.len(),
        frame_bytes(samples, seq_no).subrange(0, 4) == frame_magic(),
        frame_bytes(samples, seq_no).subrange(4, 8) == le_bytes_u32(seq_no),
        frame_bytes(samples, seq_no).subrange(8, 12) == le_bytes_u32((2 * samples.len()) as u32),
        u32_from_le(frame_bytes(samples, seq_no).subrange(4, 8)) == seq_no,
        u32_from_le(frame_bytes(samples, seq_no).subrange(8, 12)) == 2 * samples.len(),
        frame_bytes(samples, seq_no).skip(12) == frame_payload(samples),
{
    lemma_payload_len(samples);
    let b = frame_bytes(samples, seq_no);
    assert(b.subrange(0, 4) =~= frame_magic());
    assert(b.subrange(4, 8) =~= le_bytes_u32(seq_no));
    assert(b.subrange(8, 12) =~= le_bytes_u32((2 * samples.len()) as u32));
    lemma_le4_roundtrip(seq_no as int);
    lemma_le4_roundtrip(2 * samples.len() as int);
    assert(b.skip(12) =~= frame_payload(samples));
}

/// Little-endian encoding of a 32-bit quantity loses nothing: decoding
/// the four bytes gives the value back.
pub proof fn lemma_le4_roundtrip(x: int)
    requires
        0 <= x < 0x1_0000_0000,
    ensures
        u32_from_le(le4(x)) == x,
{
    lemma_fundamental_div_mod(x, 256);
    lemma_fundamental_div_mod(x / 256, 256);
    lemma_fundamental_div_mod(x / 65536, 256);
    lemma_div_denominator(x, 256, 256);
    lemma_div_denominator(x, 65536, 256);
    lemma_mod_division_less_than_divisor(x, 256);
    lemma_mod_division_less_than_divisor(x / 256, 256);
    lemma_mod_division_less_than_divisor(x / 65536, 256);
    assert(x / 16777216 < 256) by {
        lemma_div_is_ordered(x, 0xffff_ffff, 16777216);
    }
    lemma_small_mod((x / 16777216) as nat, 256nat);
}

/// Little-endian encoding of a 16-bit sample loses nothing: decoding the
/// two bytes gives the sample back.
pub proof fn lemma_le_bytes_i16_roundtrip(s: i16)
    ensures
        i16_from_le(le_bytes_i16(s)[0], le_bytes_i16(s)[1]) == s as int,
{
    let v = u16_of_i16(s);
    lemma_fundamental_div_mod(v, 256);
    lemma_mod_division_less_than_divisor(v, 256);
    assert(v / 256 < 256) by {
        lemma_div_is_ordered(v, 0xffff, 256);
    }
    lemma_small_mod((v / 256) as nat, 256nat);
}

/// Byte pair `k` of a frame's payload is the encoding of sample `k`.
pub proof fn lemma_payload_bytes_at(samples: Seq<i16>, k: int)
    requires
        0 <= k < samples.len(),
    ensures
        frame_payload(samples)[2 * k] == le_bytes_i16(samples[k])[0],
        frame_payload(samples)[2 * k + 1] == le_bytes_i16(samples[k])[1],
    decreases samples.len(),
{
    lemma_payload_len(samples.drop_last());
    if k < samples.len() - 1 {
        lemma_payload_bytes_at(samples.drop_last(), k);
    }
}

/// The framed stream replays losslessly: decoding byte pair `k` of a
/// frame's payload recovers exactly the `k`-th staged sample.
pub proof fn lemma_payload_roundtrip(samples: Seq<i16>, k: int)
    requires
        0 <= k < samples.len(),
    ensures
        i16_from_le(frame_payload(samples)[2 * k], frame_payload(samples)[2 * k + 1])
            == samples[k] as int,
{
    lemma_payload_bytes_at(samples, k);
    lemma_le_bytes_i16_roundtrip(samples[k]);
}

/// Appends the two little-endian bytes of one 16-bit sample.
pub(crate) fn push_le_i16(out: &mut Vec<u8>, s: i16)
    ensures
        final(out)@ == old(out)@ + le_bytes_i16(s),
{
    let v: u32 = if s >= 0 {
        s as u32
    } else {
        (s as i32 + 65536) as u32
    };
    out.push((v % 256) as u8);
    out.push((v / 256) as u8);
    proof {
        assert(out@ =~= old(out)@ + le_bytes_i16(s));
    }
}

/// Appends the two little-endian bytes of a 16-bit value.
pub(crate) fn push_le_u16(out: &mut Vec<u8>, x: u16)
    ensures
        final(out)@ == old(out)@ + le2(x as int),
{
    out.push((x % 256) as u8);
    out.push((x / 256) as u8);
    proof {
        vstd::arithmetic::div_mod::lemma_small_mod((x as int / 256) as nat, 256nat);
        assert(x as int / 256 % 256 == x as int / 256);
        assert(out@ =~= old(out)@ + le2(x as int));
    }
}

/// Appends the four little-endian bytes of a 32-bit value.
pub(crate) fn push_le_u32(out: &mut Vec<u8>, x: u32)
    ensures
        final(out)@ == old(out)@ + le_bytes_u32(x),
{
    out.push((x % 256) as u8);
    out.push((x / 256 % 256) as u8);
    out.push((x / 65536 % 256) as u8);
    out.push((x / 16777216) as u8);
    proof {
        lemma_mod_division_less_than_divisor(x as int / 16777216, 256);
        assert(x as int / 16777216 % 256 == x as int / 16777216);
        assert(out@ =~= old(out)@ + le_bytes_u32(x));
    }
}

/// Appends one complete wire frame for `samples` to `out`: the magic
/// marker, the sequence number, the payload length in bytes, then every
/// sample as a little-endian 16-bit value, in order.
pub fn write_pcm_frame(out: &mut Vec<u8>, samples: &Vec<i16>, sequence_number: u32)
    requires
        2 * samples@.len() <= 0xffff_ffff,
    ensures
        final(out)@ == old(out)@ + frame_bytes(samples@, sequence_number),
{
    out.push(0x53);
    out.push(0x45);
    out.push(0x4c);
    out.push(0x4c);
    push_le_u32(out, sequence_number);
    let frame_size: u32 = (2 * samples.len()) as u32;
    push_le_u32(out, frame_size);
    let ghost before_payload = out@;
    let mut i: usize = 0;
    while i < samples.len()
        invariant
            0 <= i <= samples@.len(),
            out@ == before_payload + frame_payload(samples@.subrange(0, i as int)),
        decreases samples@.len() - i,
    {
        proof {
            let sub = samples@.subrange(0, i as int + 1);
            assert(sub.drop_last() =~= samples@.subrange(0, i as int));
            assert(sub.last() == samples@[i as int]);
        }
        push_le_i16(out, samples[i]);
        proof {
            assert(out@ =~= before_payload + frame_payload(samples@.subrange(0, i as int + 1)));
        }
        i = i + 1;
    }
    proof {
        assert(samples@.subrange(0, samples@.len() as int) =~= samples@);
        assert(out@ =~= old(out)@ + frame_bytes(samples@, sequence_number));
    }
}

/// The framed-stream sink: stages stereo pairs, emits one wire frame per
/// full batch, and numbers the delivered frames contiguously from zero.
///
/// `delivered` records, in order, the sequence number and payload of every
/// frame whose write the caller has acknowledged; `pending` holds the one
/// frame that has been emitted but not yet acknowledged.
pub struct FrameStream {
    /// Sequence number of the next frame to be delivered.
    pub sequence: u32,
    /// Stereo-interleaved samples staged for the next frame.
    pub staging: Vec<i16>,
    /// Stereo pairs per emitted wire frame.
    pub pairs_per_frame: usize,
    /// History of acknowledged frames: sequence number and payload.
    pub delivered: Ghost<Seq<(u32, Seq<i16>)>>,
    /// The emitted frame awaiting acknowledgement, if any.
    pub pending: Ghost<Option<(u32, Seq<i16>)>>,
}

impl FrameStream {
    /// Internal consistency: the next sequence number counts the frames
    /// delivered so far modulo 2^32, every delivered frame is numbered by
    /// its position modulo 2^32, and the staging buffer never exceeds one
    /// frame's worth of samples.
    pub open spec fn wf(self) -> bool {
        &&& self.sequence as int == self.delivered@.len() as int % 0x1_0000_0000
        &&& forall|i: int|
            0 <= i < self.delivered@.len() ==> (#[trigger] self.delivered@[i]).0 as int == i
                % 0x1_0000_0000
        &&& 1 <= self.pairs_per_frame <= 0x3fff_ffff
        &&& self.staging@.len() <= 2 * self.pairs_per_frame
        &&& self.staging@.len() % 2 == 0
        &&& (self.pending@ matches Some(p) ==> p.0 == self.sequence)
    }

    /// A fresh sink that will number its frames from zero.
    pub fn new(pairs_per_frame: usize) -> (r: FrameStream)
        requires
            1 <= pairs_per_frame <= 0x3fff_ffff,
        ensures
            r.wf(),
            r.sequence == 0,
            r.staging@ =~= Seq::<i16>::empty(),
            r.pairs_per_frame == pairs_per_frame,
            r.delivered@ =~= Seq::<(u32, Seq<i16>)>::empty(),
            r.pending@ is None,
    {
        FrameStream {
            sequence: 0,
            staging: Vec::new(),
            pairs_per_frame,
            delivered: Ghost(Seq::empty()),
            pending: Ghost(None),
        }
    }

    /// Stages one stereo pair, left then right.
    pub fn push_pair(&mut self, left: i16, right: i16)
        requires
            old(self).wf(),
            old(self).staging@.len() < 2 * old(self).pairs_per_frame,
        ensures
            final(self).wf(),
            final(self).staging@ == old(self).staging@ + seq![left, right],
            final(self).sequence == old(self).sequence,
            final(self).pairs_per_frame == old(self).pairs_per_frame,
            final(self).delivered@ == old(self).delivered@,
            final(self).pending@ == old(self).pending@,
    {
        self.staging.push(left);
        self.staging.push(right);
        proof {
            assert(self.staging@ =~= old(self).staging@ + seq![left, right]);
        }
    }

    /// Whether a full frame's worth of pairs is staged.
    pub fn ready(&self) -> (r: bool)
        requires
            self.wf(),
        ensures
            r == (self.staging@.len() >= 2 * self.pairs_per_frame),
    {
        self.staging.len() >= 2 * self.pairs_per_frame
    }

    /// Builds the wire frame for everything staged, under the current
    /// sequence number, and clears the staging buffer. The frame is
    /// recorded as pending until [`Self::frame_delivered`] acknowledges
    /// it; an unacknowledged frame's number is reused, never skipped.
    pub fn emit_frame(&mut self) -> (bytes: Vec<u8>)
        requires
            old(self).wf(),
        ensures
            final(self).wf(),
            bytes@ == frame_bytes(old(self).staging@, old(self).sequence),
            final(self).staging@ =~= Seq::<i16>::empty(),
            final(self).sequence == old(self).sequence,
            final(self).pairs_per_frame == old(self).pairs_per_frame,
            final(self).delivered@ == old(self).delivered@,
            final(self).pending@ == Some((old(self).sequence, old(self).staging@)),
    {
        let mut bytes: Vec<u8> = Vec::new();
        write_pcm_frame(&mut bytes, &self.staging, self.sequence);
        self.staging = Vec::new();
        self.pending = Ghost(Some((self.sequence, old(self).staging@)));
        bytes
    }

    /// Acknowledges that the pending frame reached the stream: records it
    /// in the delivered history and advances the sequence number by one,
    /// wrapping past the 32-bit maximum.
    pub fn frame_delivered(&mut self)
        requires
            old(self).wf(),
            old(self).pending@ is Some,
        ensures
            final(self).wf(),
            final(self).delivered@ == old(self).delivered@.push(old(self).pending@->Some_0),
            final(self).sequence as int == (old(self).sequence as int + 1) % 0x1_0000_0000,
            final(self).staging@ == old(self).staging@,
            final(self).pairs_per_frame == old(self).pairs_per_frame,
            final(self).pending@ is None,
    {
        self.delivered = Ghost(self.delivered@.push(self.pending@->Some_0));
        self.pending = Ghost(None);
        let old_len: Ghost<int> = Ghost(old(self).delivered@.len() as int);
        if self.sequence == 0xffff_ffff {
            self.sequence = 0;
        } else {
            self.sequence = self.sequence + 1;
        }
        proof {
            lemma_add_mod_noop(old_len@, 1int, 0x1_0000_0000);
            lemma_mod_division_less_than_divisor(old_len@, 0x1_0000_0000);
            assert(final(self).sequence as int == (old_len@ + 1) % 0x1_0000_0000);
        }
    }
}

/// Sequence numbers in the delivered stream are contiguous non-negative
/// integers starting at zero: the frame at position `i` carries number
/// `i` modulo 2^32, so each frame's number is one more than its
/// predecessor's, wrapping after the 32-bit maximum.
pub proof fn lemma_sequence_numbers_contiguous(fs: FrameStream, i: int)
    requires
        fs.wf(),
        0 <= i < fs.delivered@.len(),
    ensures
        fs.delivered@[i].0 as int == i % 0x1_0000_0000,
        i < 0x1_0000_0000 ==> fs.delivered@[i].0 == i,
        i + 1 < fs.delivered@.len() ==> fs.delivered@[i + 1].0 as int == (fs.delivered@[i].0 as int
            + 1) % 0x1_0000_0000,
{
    lemma_mod_division_less_than_divisor(i, 0x1_0000_0000);
    if i < 0x1_0000_0000 {
        assert(i % 0x1_0000_0000 == i) by {
            vstd::arithmetic::div_mod::lemma_small_mod(i as nat, 0x1_0000_0000nat);
        }
    }
    if i + 1 < fs.delivered@.len() {
        lemma_add_mod_noop(i, 1int, 0x1_0000_0000);
        lemma_mod_division_less_than_divisor(i + 1, 0x1_0000_0000);
    }
}

} // verus!
