//! Tests of sample conversion, mono reduction, buffer processing, and the
//! mixing loop over real channels.

use win_audio_capture::capture::{
    decode_pcm16_samples, process_pcm16_buffer, validate_bit_depth, CaptureError, SampleLayout,
};
use win_audio_capture::channel::push_samples;
use win_audio_capture::frame::FrameStream;
use win_audio_capture::mixer::Mixer;
use win_audio_capture::sample::{
    mono_mix_range, mono_reduce, pcm16_to_sample, sample_to_pcm16, silence_samples,
};
use win_audio_capture::session::CaptureSession;
use win_audio_capture::wav::WavSink;

/// The fixed-point sample for a hardware float amplitude; the same
/// conversion the capture boundary performs.
fn q(amplitude: f32) -> i32 {
    (amplitude * 65536.0).floor() as i32
}

/// Amplitudes outside [-1.0, 1.0] are clamped at emission: the 16-bit
/// output saturates at the extremes and never wraps.
#[test]
fn emission_clamps_out_of_range_amplitudes() {
    assert_eq!(sample_to_pcm16(q(2.5)), 32767);
    assert_eq!(sample_to_pcm16(q(1.0)), 32767);
    assert_eq!(sample_to_pcm16(q(-2.0)), -32767);
    assert_eq!(sample_to_pcm16(q(-1.0)), -32767);
    assert_eq!(sample_to_pcm16(i32::MAX), 32767);
    assert_eq!(sample_to_pcm16(i32::MIN), -32767);
    assert_eq!(sample_to_pcm16(0), 0);
    assert_eq!(sample_to_pcm16(q(0.5)), 16383);
    assert_eq!(sample_to_pcm16(q(-0.5)), -16384);
}

/// Mono reduction is the arithmetic mean of a frame's channels, rounded
/// toward negative infinity.
#[test]
fn mono_reduction_is_channel_mean() {
    let buf: Vec<i32> = vec![65536, 0, 100, 101, -3, -4];
    let mono = mono_reduce(&buf, 2);
    assert_eq!(mono, vec![32768, 100, -4]);
    assert_eq!(mono_mix_range(&buf, 0, 3), (65536 + 100) / 3);
    let four: Vec<i32> = vec![10, 20, 30, 41];
    assert_eq!(mono_reduce(&four, 4), vec![25]);
    assert_eq!(mono_reduce(&four, 1), four);
}

/// A silence-flagged buffer of N frames yields exactly N zero samples.
#[test]
fn silence_preserves_frame_count() {
    let s = silence_samples(5);
    assert_eq!(s, vec![0, 0, 0, 0, 0]);
    assert_eq!(silence_samples(0).len(), 0);
}

/// 16-bit PCM input normalizes by the maximum positive 16-bit magnitude:
/// the extremes map to the nominal range's edges.
#[test]
fn pcm16_input_normalization() {
    assert_eq!(pcm16_to_sample(32767), 65536);
    assert_eq!(pcm16_to_sample(0), 0);
    assert_eq!(pcm16_to_sample(-100), -201);
    assert_eq!(pcm16_to_sample(-32768), -65539);
}

/// A little-endian 16-bit buffer decodes sample by sample.
#[test]
fn decode_pcm16_little_endian() {
    let bytes: Vec<u8> = vec![0x9c, 0xff, 0xff, 0x7f];
    let qs = decode_pcm16_samples(&bytes);
    assert_eq!(qs, vec![-201, 65536]);
}

/// An interleaved 16-bit stereo buffer reduces to the per-frame mean.
#[test]
fn process_pcm16_interleaved_buffer() {
    // Two frames of two channels: (32767, 32767) and (0, -100).
    let bytes: Vec<u8> = vec![0xff, 0x7f, 0xff, 0x7f, 0x00, 0x00, 0x9c, 0xff];
    let mono = process_pcm16_buffer(&bytes, 2);
    assert_eq!(mono, vec![65536, (0 - 201 - 1) / 2]);
    assert_eq!(mono, vec![65536, -101]);
}

/// An empty capture buffer yields no samples.
#[test]
fn empty_buffer_yields_no_samples() {
    let empty: Vec<u8> = Vec::new();
    assert_eq!(process_pcm16_buffer(&empty, 2).len(), 0);
    assert_eq!(decode_pcm16_samples(&empty).len(), 0);
    let no_samples: Vec<i32> = Vec::new();
    assert_eq!(mono_reduce(&no_samples, 8).len(), 0);
}

/// Only 16-bit integer and 32-bit float mix formats are accepted; any
/// other bit depth is the unsupported-depth capture error.
#[test]
fn bit_depth_validation() {
    assert_eq!(validate_bit_depth(16), Ok(SampleLayout::Pcm16));
    assert_eq!(validate_bit_depth(32), Ok(SampleLayout::Float32));
    assert_eq!(
        validate_bit_depth(24),
        Err(CaptureError::UnsupportedBitDepth { bits_per_sample: 24 })
    );
    assert_eq!(
        validate_bit_depth(8),
        Err(CaptureError::UnsupportedBitDepth { bits_per_sample: 8 })
    );
}

/// Mixing four frames of a [0.5, -0.5] microphone square wave against a
/// silent loopback writes left channel [16383, -16384, 16383, -16384] and
/// right channel [0, 0, 0, 0].
#[test]
fn mix_four_frames_square_wave_against_silence() {
    let (wav, _header) = WavSink::new(48000);
    let stream = FrameStream::new(4800);
    let mut mixer = Mixer::new(wav, stream);
    let mut data: Vec<u8> = Vec::new();
    for i in 0..4u32 {
        let amp: f32 = if i % 2 == 0 { 0.5 } else { -0.5 };
        let out = mixer.step(Some(q(amp)), None);
        assert!(!out.throttle);
        data.extend_from_slice(&out.wav_bytes);
    }
    let samples: Vec<i16> = data
        .chunks(2)
        .map(|b| i16::from_le_bytes([b[0], b[1]]))
        .collect();
    let left: Vec<i16> = samples.iter().step_by(2).copied().collect();
    let right: Vec<i16> = samples.iter().skip(1).step_by(2).copied().collect();
    assert_eq!(left, vec![16383, -16384, 16383, -16384]);
    assert_eq!(right, vec![0, 0, 0, 0]);
}

/// An empty channel read reuses the last delivered value, not silence:
/// the initial fallback is zero, and after a sample arrives the held
/// value follows it.
#[test]
fn hold_last_value_on_empty_reads() {
    let (session, _header) = CaptureSession::new(8000, 4800);
    let mut session = session;
    // Nothing delivered yet: both sides hold the initial zero.
    let (out, mic_read, loopback_read) = session.mix_once();
    assert_eq!(mic_read, None);
    assert_eq!(loopback_read, None);
    assert!(out.throttle);
    assert_eq!(&out.wav_bytes[..], &[0, 0, 0, 0]);
    // One microphone sample arrives; the next empty read holds it.
    let accepted = push_samples(&session.mic_tx, &vec![q(0.5)]);
    assert_eq!(accepted, 1);
    let (out2, mic2, _) = session.mix_once();
    assert_eq!(mic2, Some(q(0.5)));
    assert!(!out2.throttle);
    let (out3, mic3, _) = session.mix_once();
    assert_eq!(mic3, None);
    assert!(out3.throttle);
    assert_eq!(&out2.wav_bytes[..2], &16383i16.to_le_bytes());
    assert_eq!(&out3.wav_bytes[..2], &16383i16.to_le_bytes());
}

/// A full session over real channels: samples pushed by the producer side
/// come back out as wire frames with contiguous sequence numbers, and the
/// partial batch left at shutdown is flushed exactly once.
#[test]
fn session_emits_frames_and_final_flush() {
    let (session, _header) = CaptureSession::new(8000, 2);
    let mut session = session;
    let accepted = push_samples(&session.mic_tx, &vec![q(0.5), q(-0.5), q(0.25), q(1.0), q(0.125)]);
    assert_eq!(accepted, 5);

    let mut frames: Vec<Vec<u8>> = Vec::new();
    for _ in 0..5u32 {
        assert!(session.can_accept());
        let (out, _, _) = session.mix_once();
        if let Some(frame) = out.frame {
            frames.push(frame);
            session.frame_delivered();
        }
    }
    // Five stereo pairs at two pairs per frame: two full frames emitted.
    assert_eq!(frames.len(), 2);
    assert_eq!(u32::from_le_bytes([frames[0][4], frames[0][5], frames[0][6], frames[0][7]]), 0);
    assert_eq!(u32::from_le_bytes([frames[1][4], frames[1][5], frames[1][6], frames[1][7]]), 1);
    assert_eq!(&frames[0][12..], &{
        let mut p: Vec<u8> = Vec::new();
        for s in [16383i16, 0, -16384, 0] {
            p.extend_from_slice(&s.to_le_bytes());
        }
        p
    }[..]);

    // One pair is still staged: shutdown flushes it once, under number 2.
    let (final_frame, patches) = session.finish();
    let final_frame = final_frame.expect("a partial batch must be flushed");
    assert_eq!(
        u32::from_le_bytes([final_frame[4], final_frame[5], final_frame[6], final_frame[7]]),
        2
    );
    let declared = u32::from_le_bytes([final_frame[8], final_frame[9], final_frame[10], final_frame[11]]);
    assert_eq!(declared, 4);
    assert!(patches.is_some());
}
