//! Tests of the framed wire format and the framed-stream sink.

use win_audio_capture::frame::{write_pcm_frame, FrameStream};

/// A batch of two stereo samples serializes to the magic marker, the
/// little-endian sequence number, the payload length 8, and the four
/// samples little-endian.
#[test]
fn frame_two_stereo_samples_exact_bytes() {
    let samples: Vec<i16> = vec![100, -100, 200, -200];
    let mut out: Vec<u8> = Vec::new();
    write_pcm_frame(&mut out, &samples, 0);
    let expected: Vec<u8> = vec![
        0x53, 0x45, 0x4c, 0x4c, // "SELL"
        0x00, 0x00, 0x00, 0x00, // sequence 0
        0x08, 0x00, 0x00, 0x00, // payload length: 4 samples x 2 bytes
        0x64, 0x00, // 100
        0x9c, 0xff, // -100
        0xc8, 0x00, // 200
        0x38, 0xff, // -200
    ];
    assert_eq!(out, expected);
}

/// The declared payload length always equals two bytes per sample and
/// matches the bytes that follow the 12-byte header.
#[test]
fn frame_length_field_matches_payload() {
    for n in [0usize, 1, 2, 7, 100] {
        let samples: Vec<i16> = (0..n).map(|i| (i as i16) * 3 - 5).collect();
        let mut out: Vec<u8> = Vec::new();
        write_pcm_frame(&mut out, &samples, 9);
        assert_eq!(out.len(), 12 + 2 * n);
        let declared: u32 = u32::from_le_bytes([out[8], out[9], out[10], out[11]]);
        assert_eq!(declared as usize, 2 * n);
        assert_eq!(out.len() - 12, declared as usize);
        for (i, s) in samples.iter().enumerate() {
            let b = s.to_le_bytes();
            assert_eq!(out[12 + 2 * i], b[0]);
            assert_eq!(out[12 + 2 * i + 1], b[1]);
        }
    }
}

/// The sequence number is encoded little-endian at bytes 4..8.
#[test]
fn frame_sequence_number_little_endian() {
    let samples: Vec<i16> = vec![1, 2];
    let mut out: Vec<u8> = Vec::new();
    write_pcm_frame(&mut out, &samples, 0x0403_0201);
    assert_eq!(&out[4..8], &[0x01, 0x02, 0x03, 0x04]);
}

/// Delivered frames carry contiguous sequence numbers starting at zero; a
/// frame that is emitted but never acknowledged does not consume its
/// number.
#[test]
fn frame_stream_sequence_contiguous_from_zero() {
    let mut fs = FrameStream::new(1);
    let mut seen: Vec<u32> = Vec::new();
    for round in 0..3i16 {
        fs.push_pair(round, -round);
        assert!(fs.ready());
        let bytes = fs.emit_frame();
        seen.push(u32::from_le_bytes([bytes[4], bytes[5], bytes[6], bytes[7]]));
        fs.frame_delivered();
    }
    assert_eq!(seen, vec![0, 1, 2]);

    // A failed write is not acknowledged: the next frame reuses number 3.
    fs.push_pair(7, 7);
    let dropped = fs.emit_frame();
    assert_eq!(u32::from_le_bytes([dropped[4], dropped[5], dropped[6], dropped[7]]), 3);
    fs.push_pair(8, 8);
    let retried = fs.emit_frame();
    assert_eq!(u32::from_le_bytes([retried[4], retried[5], retried[6], retried[7]]), 3);
    fs.frame_delivered();
    fs.push_pair(9, 9);
    let next = fs.emit_frame();
    assert_eq!(u32::from_le_bytes([next[4], next[5], next[6], next[7]]), 4);
}

/// The staging buffer accumulates pairs until one frame's worth is
/// staged, and emitting clears it.
#[test]
fn frame_stream_stages_until_full() {
    let mut fs = FrameStream::new(2);
    fs.push_pair(1, 2);
    assert!(!fs.ready());
    fs.push_pair(3, 4);
    assert!(fs.ready());
    let bytes = fs.emit_frame();
    assert_eq!(&bytes[12..], &[1, 0, 2, 0, 3, 0, 4, 0]);
    assert!(!fs.ready());
    assert_eq!(fs.staging.len(), 0);
}
