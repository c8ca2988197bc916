//! The mixing loop's state and per-iteration step.
//!
//! Each iteration reads at most one new sample from each capture channel,
//! falls back to the channel's last delivered sample when the read came up
//! empty (hold-last-value), converts both held samples to 16-bit PCM, and
//! fans the resulting stereo frame out to both sinks: the pair always goes
//! to the WAV sink, and it is staged for the framed stream, which emits one
//! wire frame whenever a full batch is staged.

use crate::frame::{frame_bytes, le_bytes_i16, FrameStream};
use crate::sample::pcm16_of_sample;
use crate::wav::{WavPatches, WavSink, WAV_MAX_DATA_BYTES};
use vstd::prelude::*;

verus! {

/// The sample an iteration works with: the channel's new sample if one
/// arrived, otherwise the last value it delivered.
pub open spec fn held_sample(prev: i32, input: Option<i32>) -> i32 {
    match input {
        Some(s) => s,
        None => prev,
    }
}

/// The 16-bit value emitted for a sample.
pub open spec fn emitted_pcm(q: int) -> i16 {
    pcm16_of_sample(q) as i16
}

/// The samples a whole run of mixing iterations appends to the WAV sink,
/// and the held values it ends with: each event is one iteration's pair of
/// channel reads (microphone, loopback), `None` where the channel was
/// empty. Returns (final held microphone sample, final held loopback
/// sample, appended WAV samples).
pub open spec fn mix_run(
    last_mic: i32,
    last_loopback: i32,
    events: Seq<(Option<i32>, Option<i32>)>,
) -> (i32, i32, Seq<i16>)
    decreases events.len(),
{
    if events.len() == 0 {
        (last_mic, last_loopback, Seq::empty())
    } else {
        let m = held_sample(last_mic, events.first().0);
        let l = held_sample(last_loopback, events.first().1);
        let rest = mix_run(m, l, events.drop_first());
        (rest.0, rest.1, seq![emitted_pcm(m as int), emitted_pcm(l as int)] + rest.2)
    }
}

/// What one mixing iteration hands back to its driver.
pub struct MixOutput {
    /// The four bytes to append to the WAV file: left then right sample.
    pub wav_bytes: Vec<u8>,
    /// A complete wire frame, when this iteration filled the staging
    /// buffer; the driver writes it and acknowledges with
    /// [`Mixer::frame_delivered`].
    pub frame: Option<Vec<u8>>,
    /// Whether both channels were empty this iteration, so the driver
    /// should sleep briefly before the next one.
    pub throttle: bool,
}

/// The mixing loop's state: the last sample each channel delivered, the
/// count of stereo frames written, and the two sinks.
pub struct Mixer {
    /// Last sample the microphone channel delivered; zero initially.
    pub last_mic: i32,
    /// Last sample the loopback channel delivered; zero initially.
    pub last_loopback: i32,
    /// Stereo frames written to the WAV sink so far.
    pub frames_written: u64,
    /// The WAV file sink.
    pub wav: WavSink,
    /// The framed-stream sink.
    pub stream: FrameStream,
}

impl Mixer {
    /// Internal consistency: both sinks are consistent, the WAV sink holds
    /// exactly two samples per stereo frame written, and the staging
    /// buffer is strictly below one wire frame's worth (a full buffer is
    /// always emitted within the iteration that filled it).
    pub open spec fn wf(self) -> bool {
        &&& self.wav.wf()
        &&& self.stream.wf()
        &&& self.wav.samples@.len() == 2 * self.frames_written
        &&& self.stream.staging@.len() < 2 * self.stream.pairs_per_frame
    }

    /// Whether another stereo frame still fits the WAV container.
    pub open spec fn can_accept(self) -> bool {
        &&& self.wav.data_bytes + 4 <= WAV_MAX_DATA_BYTES
        &&& self.frames_written < 0xffff_ffff_ffff_ffffu64
    }

    /// A fresh mixer over the given sinks, holding zero for both channels
    /// until a first sample arrives.
    pub fn new(wav: WavSink, stream: FrameStream) -> (r: Mixer)
        requires
            wav.wf(),
            stream.wf(),
            wav.samples@.len() == 0,
            stream.staging@.len() == 0,
        ensures
            r.wf(),
            r.last_mic == 0,
            r.last_loopback == 0,
            r.frames_written == 0,
            r.wav == wav,
            r.stream == stream,
    {
        Mixer { last_mic: 0, last_loopback: 0, frames_written: 0, wav, stream }
    }

    /// One mixing iteration over the two channel reads: hold the last
    /// value where a read came up empty, emit the held pair as 16-bit PCM
    /// to the WAV sink, stage it for the framed stream, and emit a wire
    /// frame if the staging buffer just filled.
    pub fn step(&mut self, mic: Option<i32>, loopback: Option<i32>) -> (out: MixOutput)
        requires
            old(self).wf(),
            old(self).can_accept(),
            !old(self).wav.finalized,
        ensures
            final(self).wf(),
            !final(self).wav.finalized,
            final(self).last_mic == held_sample(old(self).last_mic, mic),
            final(self).last_loopback == held_sample(old(self).last_loopback, loopback),
            final(self).frames_written == old(self).frames_written + 1,
            final(self).wav.sample_rate == old(self).wav.sample_rate,
            final(self).wav.samples@ == old(self).wav.samples@ + mix_run(
                old(self).last_mic,
                old(self).last_loopback,
                seq![(mic, loopback)],
            ).2,
            ({
                let l = emitted_pcm(held_sample(old(self).last_mic, mic) as int);
                let r = emitted_pcm(held_sample(old(self).last_loopback, loopback) as int);
                &&& out.wav_bytes@ == le_bytes_i16(l) + le_bytes_i16(r)
                &&& final(self).stream.sequence == old(self).stream.sequence
                &&& final(self).stream.pairs_per_frame == old(self).stream.pairs_per_frame
                &&& final(self).stream.delivered@ == old(self).stream.delivered@
                &&& if old(self).stream.staging@.len() + 2 == 2 * old(
                    self,
                ).stream.pairs_per_frame {
                    &&& out.frame matches Some(b) && b@ == frame_bytes(
                        old(self).stream.staging@ + seq![l, r],
                        old(self).stream.sequence,
                    )
                    &&& final(self).stream.staging@ =~= Seq::<i16>::empty()
                    &&& final(self).stream.pending@ == Some(
                        (old(self).stream.sequence, old(self).stream.staging@ + seq![l, r]),
                    )
                } else {
                    &&& out.frame is None
                    &&& final(self).stream.staging@ == old(self).stream.staging@ + seq![l, r]
                    &&& final(self).stream.pending@ == old(self).stream.pending@
                }
            }),
            out.throttle == (mic is None && loopback is None),
    {
        let mic_s: i32 = match mic {
            Some(s) => s,
            None => self.last_mic,
        };
        let loopback_s: i32 = match loopback {
            Some(s) => s,
            None => self.last_loopback,
        };
        self.last_mic = mic_s;
        self.last_loopback = loopback_s;
        let left = crate::sample::sample_to_pcm16(mic_s);
        let right = crate::sample::sample_to_pcm16(loopback_s);
        let mut wav_bytes = self.wav.write_sample(left);
        let mut right_bytes = self.wav.write_sample(right);
        wav_bytes.append(&mut right_bytes);
        self.stream.push_pair(left, right);
        let frame: Option<Vec<u8>> = if self.stream.ready() {
            Some(self.stream.emit_frame())
        } else {
            None
        };
        self.frames_written = self.frames_written + 1;
        let throttle = mic.is_none() && loopback.is_none();
        proof {
            let ev = seq![(mic, loopback)];
            assert(ev.drop_first() =~= Seq::<(Option<i32>, Option<i32>)>::empty());
            crate::sample::lemma_emission_clamps(mic_s as int);
            crate::sample::lemma_emission_clamps(loopback_s as int);
            assert(left == emitted_pcm(mic_s as int));
            assert(right == emitted_pcm(loopback_s as int));
            assert(ev.first() == (mic, loopback));
            assert(held_sample(old(self).last_mic, mic) == mic_s);
            assert(held_sample(old(self).last_loopback, loopback) == loopback_s);
            let rest = mix_run(mic_s, loopback_s, ev.drop_first());
            assert(rest.2 =~= Seq::<i16>::empty());
            assert(mix_run(old(self).last_mic, old(self).last_loopback, ev).2 =~= seq![left, right]);
            assert(self.wav.samples@ =~= old(self).wav.samples@ + mix_run(
                old(self).last_mic,
                old(self).last_loopback,
                ev,
            ).2);
            assert(wav_bytes@ =~= le_bytes_i16(left) + le_bytes_i16(right));
        }
        MixOutput { wav_bytes, frame, throttle }
    }

    /// Forwards the framed stream's delivery acknowledgement: the frame
    /// emitted by the last [`Mixer::step`] reached the stream, so its
    /// sequence number is consumed.
    pub fn frame_delivered(&mut self)
        requires
            old(self).wf(),
            old(self).stream.pending@ is Some,
        ensures
            final(self).wf(),
            final(self).stream.delivered@ == old(self).stream.delivered@.push(
                old(self).stream.pending@->Some_0,
            ),
            final(self).stream.sequence as int == (old(self).stream.sequence as int + 1)
                % 0x1_0000_0000,
            final(self).stream.pending@ is None,
            final(self).stream.staging@ == old(self).stream.staging@,
            final(self).wav == old(self).wav,
            final(self).last_mic == old(self).last_mic,
            final(self).last_loopback == old(self).last_loopback,
            final(self).frames_written == old(self).frames_written,
    {
        self.stream.frame_delivered();
    }

    /// Shuts the session down: emits one final wire frame for any
    /// partially staged samples (an empty staging buffer is omitted, not
    /// emitted), and finalizes the WAV sink, yielding the header patches
    /// that make the file's declared lengths correct.
    pub fn finish(&mut self) -> (r: (Option<Vec<u8>>, Option<WavPatches>))
        requires
            old(self).wf(),
            !old(self).wav.finalized,
        ensures
            final(self).wav.wf(),
            final(self).stream.wf(),
            final(self).wav.finalized,
            final(self).wav.samples@ == old(self).wav.samples@,
            final(self).wav.sample_rate == old(self).wav.sample_rate,
            final(self).frames_written == old(self).frames_written,
            if old(self).stream.staging@.len() > 0 {
                &&& r.0 matches Some(b) && b@ == frame_bytes(
                    old(self).stream.staging@,
                    old(self).stream.sequence,
                )
                &&& final(self).stream.staging@ =~= Seq::<i16>::empty()
            } else {
                &&& r.0 is None
                &&& final(self).stream == old(self).stream
            },
            r.1 matches Some(p) && p.riff_size@ == crate::frame::le4(
                36 + old(self).wav.data_bytes as int,
            ) && p.data_size@ == crate::frame::le4(old(self).wav.data_bytes as int),
    {
        let final_frame: Option<Vec<u8>> = if self.stream.staging.len() > 0 {
            Some(self.stream.emit_frame())
        } else {
            None
        };
        let patches = self.wav.finalize();
        (final_frame, patches)
    }
}

/// Appending one more iteration to a run: the longer run's samples are
/// the shorter run's followed by the new iteration's pair, computed from
/// the held values the shorter run ended with. [`Mixer::step`]'s contract
/// speaks of single-event runs; this chains it across a whole session.
pub proof fn lemma_mix_run_snoc(
    last_mic: i32,
    last_loopback: i32,
    events: Seq<(Option<i32>, Option<i32>)>,
    e: (Option<i32>, Option<i32>),
)
    ensures
        ({
            let run = mix_run(last_mic, last_loopback, events);
            let one = mix_run(run.0, run.1, seq![e]);
            mix_run(last_mic, last_loopback, events.push(e)) == (one.0, one.1, run.2 + one.2)
        }),
    decreases events.len(),
{
    let run = mix_run(last_mic, last_loopback, events);
    let one = mix_run(run.0, run.1, seq![e]);
    assert(seq![e].drop_first() =~= Seq::<(Option<i32>, Option<i32>)>::empty());
    if events.len() == 0 {
        assert(events.push(e) =~= seq![e]);
        assert(run.2 + one.2 =~= one.2);
    } else {
        let m = held_sample(last_mic, events.first().0);
        let l = held_sample(last_loopback, events.first().1);
        assert(events.push(e).first() == events.first());
        assert(events.push(e).drop_first() =~= events.drop_first().push(e));
        lemma_mix_run_snoc(m, l, events.drop_first(), e);
        let rest = mix_run(m, l, events.drop_first());
        assert(mix_run(last_mic, last_loopback, events.push(e)).2 =~= run.2 + one.2);
    }
}

/// Whether the right (loopback) channel of an interleaved stereo sample
/// sequence is all zeros.
pub open spec fn right_channel_silent(samples: Seq<i16>) -> bool {
    forall|i: int| 0 <= i < samples.len() && i % 2 == 1 ==> samples[i] == 0i16
}

/// If the loopback source never delivers a sample — it failed to
/// initialize and its channel stays empty — every mixing iteration holds
/// the initial zero for the loopback side, so the whole run's WAV right
/// channel is silent; the left channel still carries the microphone. The
/// session therefore still ends in a consistent WAV file (see
/// [`crate::wav::lemma_wav_file_consistent`]) whose right channel is all
/// zeros.
pub proof fn lemma_loopback_failure_right_silent(
    last_mic: i32,
    events: Seq<(Option<i32>, Option<i32>)>,
)
    requires
        forall|i: int| 0 <= i < events.len() ==> (#[trigger] events[i]).1 is None,
    ensures
        mix_run(last_mic, 0, events).1 == 0,
        right_channel_silent(mix_run(last_mic, 0, events).2),
    decreases events.len(),
{
    if events.len() > 0 {
        let m = held_sample(last_mic, events.first().0);
        assert(events.first().1 is None);
        assert(held_sample(0, events.first().1) == 0);
        assert(forall|i: int|
            0 <= i < events.drop_first().len() ==> (#[trigger] events.drop_first()[i]).1 is None);
        lemma_loopback_failure_right_silent(m, events.drop_first());
        let rest = mix_run(m, 0, events.drop_first());
        let whole = mix_run(last_mic, 0, events);
        assert(emitted_pcm(0) == 0i16);
        assert(whole.2 == seq![emitted_pcm(m as int), 0i16] + rest.2);
        assert forall|i: int| 0 <= i < whole.2.len() && i % 2 == 1 implies whole.2[i] == 0i16 by {
            if i >= 2 {
                assert(whole.2[i] == rest.2[i - 2]);
                assert((i - 2) % 2 == 1) by {
                    vstd::arithmetic::div_mod::lemma_mod_sub_multiples_vanish(i, 2);
                }
            }
        }
    }
}

/// The WAV sink always holds exactly two 16-bit samples per stereo frame
/// the mixer has written: the file's sample count is twice the frame
/// count.
pub proof fn lemma_wav_sample_count(m: Mixer)
    requires
        m.wf(),
    ensures
        m.wav.samples@.len() == 2 * m.frames_written,
        m.wav.data_bytes == 4 * m.frames_written,
{
}

} // verus!
