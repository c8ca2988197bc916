//! The capture session: one bounded channel per capture source, the mixing
//! state, and the per-iteration mixing step over both channels.
//!
//! The session's driver (the controlling context) runs the loop: while the
//! shared running flag holds, it calls [`CaptureSession::mix_once`], writes
//! the returned WAV bytes to the file, writes a returned wire frame to the
//! byte stream and acknowledges it, and sleeps briefly when both channels
//! were empty. On shutdown it calls [`CaptureSession::finish`] and patches
//! the WAV header. The capture contexts feed the channels from their own
//! threads through [`crate::channel::push_samples`].

use crate::channel::{new_sample_channel, poll_sample};
use crate::frame::{frame_bytes, FrameStream};
use crate::mixer::{held_sample, mix_run, MixOutput, Mixer};
use crate::wav::{wav_header, WavPatches, WavSink};
use vstd::prelude::*;

verus! {

/// A process-scoped capture session: the negotiated sample rate, one
/// bounded sample channel per capture source, and the mixing state.
pub struct CaptureSession {
    /// The output sample rate, taken from the microphone's native
    /// configuration.
    pub sample_rate: u32,
    /// Producer side of the microphone channel; the microphone callback
    /// clones and feeds it.
    pub mic_tx: crossbeam_channel::Sender<i32>,
    /// Consumer side of the microphone channel.
    pub mic_rx: crossbeam_channel::Receiver<i32>,
    /// Producer side of the loopback channel; the loopback thread clones
    /// and feeds it.
    pub loopback_tx: crossbeam_channel::Sender<i32>,
    /// Consumer side of the loopback channel.
    pub loopback_rx: crossbeam_channel::Receiver<i32>,
    /// The mixing state and both sinks.
    pub mixer: Mixer,
}

impl CaptureSession {
    /// Internal consistency of the mixing state and sinks.
    pub open spec fn wf(self) -> bool {
        self.mixer.wf()
    }

    /// A fresh session and the placeholder WAV header to write at the
    /// start of the file. Each channel is bounded to one second of audio
    /// at the session's rate, so a stalled consumer cannot grow memory
    /// without bound; each wire frame carries `pairs_per_frame` stereo
    /// pairs.
    pub fn new(sample_rate: u32, pairs_per_frame: usize) -> (r: (CaptureSession, Vec<u8>))
        requires
            1 <= sample_rate <= 0x3fff_ffff,
            1 <= pairs_per_frame <= 0x3fff_ffff,
        ensures
            r.0.wf(),
            r.0.sample_rate == sample_rate,
            r.0.mixer.last_mic == 0,
            r.0.mixer.last_loopback == 0,
            r.0.mixer.frames_written == 0,
            !r.0.mixer.wav.finalized,
            r.0.mixer.wav.sample_rate == sample_rate,
            r.0.mixer.wav.samples@ =~= Seq::<i16>::empty(),
            r.0.mixer.stream.sequence == 0,
            r.0.mixer.stream.staging@ =~= Seq::<i16>::empty(),
            r.0.mixer.stream.delivered@ =~= Seq::<(u32, Seq<i16>)>::empty(),
            r.0.mixer.stream.pairs_per_frame == pairs_per_frame,
            r.1@ == wav_header(sample_rate, 0),
    {
        let (mic_tx, mic_rx) = new_sample_channel(sample_rate as usize);
        let (loopback_tx, loopback_rx) = new_sample_channel(sample_rate as usize);
        let (wav, header) = WavSink::new(sample_rate);
        let stream = FrameStream::new(pairs_per_frame);
        let mixer = Mixer::new(wav, stream);
        let session = CaptureSession { sample_rate, mic_tx, mic_rx, loopback_tx, loopback_rx, mixer };
        (session, header)
    }

    /// Whether another stereo frame still fits the WAV container; the
    /// driver checks this before each iteration.
    pub fn can_accept(&self) -> (r: bool)
        ensures
            r == self.mixer.can_accept(),
    {
        self.mixer.wav.data_bytes <= crate::wav::WAV_MAX_DATA_BYTES - 4
            && self.mixer.frames_written < 0xffff_ffff_ffff_ffffu64
    }

    /// One iteration of the mixing loop: a non-blocking read from each
    /// channel, hold-last-value where a read came up empty, then one mixer
    /// step. Returns the step's output together with the two raw reads, so
    /// the contract pins the new state exactly for whatever the channels
    /// held.
    pub fn mix_once(&mut self) -> (r: (MixOutput, Option<i32>, Option<i32>))
        requires
            old(self).wf(),
            old(self).mixer.can_accept(),
            !old(self).mixer.wav.finalized,
        ensures
            final(self).wf(),
            !final(self).mixer.wav.finalized,
            final(self).sample_rate == old(self).sample_rate,
            final(self).mixer.last_mic == held_sample(old(self).mixer.last_mic, r.1),
            final(self).mixer.last_loopback == held_sample(old(self).mixer.last_loopback, r.2),
            final(self).mixer.frames_written == old(self).mixer.frames_written + 1,
            final(self).mixer.wav.sample_rate == old(self).mixer.wav.sample_rate,
            final(self).mixer.wav.samples@ == old(self).mixer.wav.samples@ + mix_run(
                old(self).mixer.last_mic,
                old(self).mixer.last_loopback,
                seq![(r.1, r.2)],
            ).2,
            ({
                let l = crate::mixer::emitted_pcm(held_sample(old(self).mixer.last_mic, r.1) as int);
                let rr = crate::mixer::emitted_pcm(
                    held_sample(old(self).mixer.last_loopback, r.2) as int,
                );
                &&& r.0.wav_bytes@ == crate::frame::le_bytes_i16(l) + crate::frame::le_bytes_i16(
                    rr,
                )
                &&& final(self).mixer.stream.sequence == old(self).mixer.stream.sequence
                &&& final(self).mixer.stream.pairs_per_frame == old(
                    self,
                ).mixer.stream.pairs_per_frame
                &&& final(self).mixer.stream.delivered@ == old(self).mixer.stream.delivered@
                &&& if old(self).mixer.stream.staging@.len() + 2 == 2 * old(
                    self,
                ).mixer.stream.pairs_per_frame {
                    &&& r.0.frame matches Some(b) && b@ == frame_bytes(
                        old(self).mixer.stream.staging@ + seq![l, rr],
                        old(self).mixer.stream.sequence,
                    )
                    &&& final(self).mixer.stream.staging@ =~= Seq::<i16>::empty()
                } else {
                    &&& r.0.frame is None
                    &&& final(self).mixer.stream.staging@ == old(self).mixer.stream.staging@
                        + seq![l, rr]
                }
            }),
            r.0.throttle == (r.1 is None && r.2 is None),
    {
        let (mic_read, _mic_held) = poll_sample(&self.mic_rx, self.mixer.last_mic);
        let (loopback_read, _loopback_held) = poll_sample(
            &self.loopback_rx,
            self.mixer.last_loopback,
        );
        let out = self.mixer.step(mic_read, loopback_read);
        (out, mic_read, loopback_read)
    }

    /// Acknowledges that the wire frame emitted by the last iteration
    /// reached the stream; its sequence number is consumed. A frame whose
    /// write failed is not acknowledged: its payload is discarded and its
    /// number reused, and the WAV file remains authoritative.
    pub fn frame_delivered(&mut self)
        requires
            old(self).wf(),
            old(self).mixer.stream.pending@ is Some,
        ensures
            final(self).wf(),
            final(self).mixer.stream.delivered@ == old(self).mixer.stream.delivered@.push(
                old(self).mixer.stream.pending@->Some_0,
            ),
            final(self).mixer.stream.sequence as int == (old(self).mixer.stream.sequence as int
                + 1) % 0x1_0000_0000,
            final(self).mixer.wav == old(self).mixer.wav,
            final(self).sample_rate == old(self).sample_rate,
    {
        self.mixer.frame_delivered();
    }

    /// Shuts the session down: one final wire frame for any partially
    /// staged samples (none for an empty buffer), and the WAV header
    /// patches that make the file's declared lengths correct. Must be
    /// called exactly once, after the last iteration.
    pub fn finish(&mut self) -> (r: (Option<Vec<u8>>, Option<WavPatches>))
        requires
            old(self).wf(),
            !old(self).mixer.wav.finalized,
        ensures
            final(self).mixer.wav.wf(),
            final(self).mixer.wav.finalized,
            final(self).mixer.wav.samples@ == old(self).mixer.wav.samples@,
            final(self).mixer.wav.sample_rate == old(self).mixer.wav.sample_rate,
            if old(self).mixer.stream.staging@.len() > 0 {
                r.0 matches Some(b) && b@ == frame_bytes(
                    old(self).mixer.stream.staging@,
                    old(self).mixer.stream.sequence,
                )
            } else {
                r.0 is None
            },
            r.1 matches Some(p) && p.riff_size@ == crate::frame::le4(
                36 + old(self).mixer.wav.data_bytes as int,
            ) && p.data_size@ == crate::frame::le4(old(self).mixer.wav.data_bytes as int),
    {
        self.mixer.finish()
    }
}

} // verus!
