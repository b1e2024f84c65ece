use scli::decoder::Mp3Decoder;
use std::io::Cursor;

/// One MPEG-1 Layer III frame of silence: 128 kbit/s, 44100 Hz,
/// stereo, 417 bytes, all payload zero.
fn silent_frame() -> Vec<u8> {
    let mut frame = vec![0u8; 417];
    frame[0] = 0xFF;
    frame[1] = 0xFB;
    frame[2] = 0x90;
    frame[3] = 0x00;
    frame
}

#[test]
fn empty_source_is_rejected() {
    let source = Cursor::new(Vec::<u8>::new());
    assert!(Mp3Decoder::new(source).is_err());
}

#[test]
fn garbage_source_is_rejected() {
    let source = Cursor::new(vec![0x13u8; 4096]);
    assert!(Mp3Decoder::new(source).is_err());
}

#[test]
fn frames_decode_with_their_parameters() {
    let mut bytes = Vec::new();
    for _ in 0..3 {
        bytes.extend_from_slice(&silent_frame());
    }
    let mut decoder = Mp3Decoder::new(Cursor::new(bytes)).expect("first frame decodes");
    assert_eq!(decoder.sample_rate(), 44100);
    assert_eq!(decoder.channels(), 2);
    // An MPEG-1 Layer III frame holds 1152 samples per channel.
    assert_eq!(decoder.current_frame_len(), Some(2 * 1152));
    // The decoded frame is silence, handed out sample by sample.
    assert_eq!(decoder.next(), Some(0));
    assert_eq!(decoder.next(), Some(0));
}

#[test]
fn samples_come_out_in_frame_order() {
    let mut bytes = Vec::new();
    for _ in 0..2 {
        bytes.extend_from_slice(&silent_frame());
    }
    let mut decoder = Mp3Decoder::new(Cursor::new(bytes)).expect("first frame decodes");
    let frame_len = decoder.current_frame_len().unwrap();
    let mut yielded = 0usize;
    while decoder.next().is_some() {
        yielded += 1;
    }
    // Whole frames only, and at least the first one.
    assert_eq!(yielded % frame_len, 0);
    assert!(yielded >= frame_len);
}
