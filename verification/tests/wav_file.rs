//! Tests of the WAV container sink, cross-checked with an independent WAV
//! reader.

use std::io::Cursor;
use win_audio_capture::frame::FrameStream;
use win_audio_capture::mixer::Mixer;
use win_audio_capture::wav::{WavSink, DATA_SIZE_OFFSET, RIFF_SIZE_OFFSET};

/// Assembles the file a driver would write: header, then data, then the
/// finalization patches spliced in at their fixed offsets.
fn assemble(header: Vec<u8>, data: &[u8], sink: &mut WavSink) -> Vec<u8> {
    let mut file = header;
    file.extend_from_slice(data);
    let patches = sink.finalize().expect("first finalization must yield patches");
    file[RIFF_SIZE_OFFSET..RIFF_SIZE_OFFSET + 4].copy_from_slice(&patches.riff_size);
    file[DATA_SIZE_OFFSET..DATA_SIZE_OFFSET + 4].copy_from_slice(&patches.data_size);
    file
}

/// The finalized file parses as stereo 16-bit PCM at the session rate, and
/// its sample count equals two samples per stereo frame written.
#[test]
fn wav_sample_count_is_twice_frames_written() {
    let (sink, header) = WavSink::new(44100);
    let mut sink = sink;
    let frames: Vec<(i16, i16)> = vec![(1000, -1000), (32767, -32768), (0, 7)];
    let mut data: Vec<u8> = Vec::new();
    for (l, r) in &frames {
        data.extend_from_slice(&sink.write_sample(*l));
        data.extend_from_slice(&sink.write_sample(*r));
    }
    let file = assemble(header, &data, &mut sink);

    let mut reader = hound::WavReader::new(Cursor::new(file)).expect("file must parse");
    let spec = reader.spec();
    assert_eq!(spec.channels, 2);
    assert_eq!(spec.sample_rate, 44100);
    assert_eq!(spec.bits_per_sample, 16);
    assert_eq!(spec.sample_format, hound::SampleFormat::Int);
    assert_eq!(reader.len() as usize, 2 * frames.len());
    let read: Vec<i16> = reader.samples::<i16>().map(|s| s.unwrap()).collect();
    assert_eq!(read, vec![1000, -1000, 32767, -32768, 0, 7]);
}

/// Finalizing twice does not corrupt the file: the second call yields
/// nothing, so the file's bytes stay exactly those of the first
/// finalization.
#[test]
fn wav_finalize_twice_is_noop() {
    let (sink, header) = WavSink::new(8000);
    let mut sink = sink;
    let mut data: Vec<u8> = Vec::new();
    data.extend_from_slice(&sink.write_sample(5));
    data.extend_from_slice(&sink.write_sample(-5));
    let file = assemble(header, &data, &mut sink);
    assert!(sink.finalize().is_none());
    assert!(sink.finalize().is_none());
    let mut reader = hound::WavReader::new(Cursor::new(file)).expect("file must still parse");
    assert_eq!(reader.len(), 2);
    let read: Vec<i16> = reader.samples::<i16>().map(|s| s.unwrap()).collect();
    assert_eq!(read, vec![5, -5]);
}

/// An empty recording still finalizes into a well-formed file.
#[test]
fn wav_empty_recording_is_well_formed() {
    let (sink, header) = WavSink::new(16000);
    let mut sink = sink;
    let file = assemble(header, &[], &mut sink);
    assert_eq!(file.len(), 44);
    let reader = hound::WavReader::new(Cursor::new(file)).expect("empty file must parse");
    assert_eq!(reader.len(), 0);
}

/// If the loopback source never delivers — it failed to initialize — the
/// session still produces a valid WAV file whose right channel is silent
/// while the left carries the microphone.
#[test]
fn loopback_failure_leaves_right_channel_silent() {
    let (wav, header) = WavSink::new(48000);
    let stream = FrameStream::new(4800);
    let mut mixer = Mixer::new(wav, stream);
    let mut data: Vec<u8> = Vec::new();
    let mic: Vec<i32> = vec![65536, -65536, 32768, 0, 12345];
    for m in &mic {
        let out = mixer.step(Some(*m), None);
        data.extend_from_slice(&out.wav_bytes);
    }
    let (final_frame, patches) = mixer.finish();
    assert!(final_frame.is_some());
    let patches = patches.expect("first finalization must yield patches");
    let mut file = header;
    file.extend_from_slice(&data);
    file[RIFF_SIZE_OFFSET..RIFF_SIZE_OFFSET + 4].copy_from_slice(&patches.riff_size);
    file[DATA_SIZE_OFFSET..DATA_SIZE_OFFSET + 4].copy_from_slice(&patches.data_size);

    let mut reader = hound::WavReader::new(Cursor::new(file)).expect("file must parse");
    assert_eq!(reader.len() as usize, 2 * mic.len());
    let read: Vec<i16> = reader.samples::<i16>().map(|s| s.unwrap()).collect();
    for (i, s) in read.iter().enumerate() {
        if i % 2 == 1 {
            assert_eq!(*s, 0, "right channel must be silent");
        }
    }
    let left: Vec<i16> = read.iter().step_by(2).copied().collect();
    assert_eq!(left, vec![32767, -32767, 16383, 0, 6172]);
}
