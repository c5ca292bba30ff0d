//! Tests of the frame accumulator.

use walkie_textie::framing::FrameAccumulator;

#[test]
fn test_single_frame() {
    let mut acc = FrameAccumulator::new();

    assert!(acc.push(0x01).is_none());
    assert!(acc.push(0x02).is_none());
    assert!(acc.push(0x03).is_none());

    let frame = acc.push(0x00).expect("Should return frame");
    assert_eq!(frame.as_slice(), &[0x01, 0x02, 0x03]);

    assert!(acc.is_empty());
}

#[test]
fn test_empty_frame_ignored() {
    let mut acc = FrameAccumulator::new();

    assert!(acc.push(0x00).is_none());
    assert!(acc.is_empty());

    assert!(acc.push(0x00).is_none());
    assert!(acc.push(0x00).is_none());
}

#[test]
fn framing_test_multiple_frames() {
    let mut acc = FrameAccumulator::new();

    acc.push(0x01);
    acc.push(0x02);
    let frame1 = acc.push(0x00).expect("Should return frame");
    assert_eq!(frame1.as_slice(), &[0x01, 0x02]);

    acc.push(0x03);
    acc.push(0x04);
    acc.push(0x05);
    let frame2 = acc.push(0x00).expect("Should return frame");
    assert_eq!(frame2.as_slice(), &[0x03, 0x04, 0x05]);
}

#[test]
fn test_reset() {
    let mut acc = FrameAccumulator::new();

    acc.push(0x01);
    acc.push(0x02);
    assert!(!acc.is_empty());

    acc.reset();
    assert!(acc.is_empty());

    acc.push(0x03);
    let frame = acc.push(0x00).expect("Should return frame");
    assert_eq!(frame.as_slice(), &[0x03]);
}

fn feed_all(acc: &mut FrameAccumulator, bytes: &[u8]) -> Vec<Vec<u8>> {
    let mut frames = Vec::new();
    for &b in bytes {
        if let Some(frame) = acc.push(b) {
            frames.push(frame);
        }
    }
    frames
}

#[test]
fn test_concatenated_frames_split_in_order() {
    let inputs: Vec<Vec<u8>> = vec![vec![0x10; 3], vec![0x22], (1..=200u8).collect()];
    let mut stream: Vec<u8> = Vec::new();
    for frame in &inputs {
        stream.extend_from_slice(frame);
        stream.push(0x00);
    }

    let mut acc = FrameAccumulator::new();
    let frames = feed_all(&mut acc, &stream);

    assert_eq!(frames.len(), inputs.len());
    for (got, expected) in frames.iter().zip(inputs.iter()) {
        assert_eq!(got, expected);
    }
    assert!(acc.is_empty());
}

#[test]
fn test_zero_runs_absorbed() {
    let mut stream: Vec<u8> = vec![0x00; 5];
    stream.extend_from_slice(&[0x0A, 0x0B]);
    stream.extend_from_slice(&[0x00; 4]);
    stream.extend_from_slice(&[0x0C]);
    stream.push(0x00);

    let mut acc = FrameAccumulator::new();
    let frames = feed_all(&mut acc, &stream);

    assert_eq!(frames.len(), 2);
    assert_eq!(frames[0].as_slice(), &[0x0A, 0x0B]);
    assert_eq!(frames[1].as_slice(), &[0x0C]);
}

#[test]
fn test_oversized_frame_dropped() {
    // an oversized frame, then a valid one
    let oversized = vec![0x77u8; 600];
    let valid = vec![0x42u8; 4];
    let mut stream: Vec<u8> = Vec::new();
    stream.extend_from_slice(&oversized);
    stream.push(0x00);
    stream.extend_from_slice(&valid);
    stream.push(0x00);

    let mut acc = FrameAccumulator::new();
    let frames = feed_all(&mut acc, &stream);

    // the oversized frame never comes out whole
    for frame in &frames {
        assert!(frame.len() <= 512);
        assert_ne!(frame, &oversized);
    }
    // the following frame is intact
    assert_eq!(frames.last().expect("Should return frame").as_slice(), valid.as_slice());
    assert!(acc.is_empty());
}

#[test]
fn test_frame_at_capacity_kept() {
    let exact = vec![0x55u8; 512];
    let mut acc = FrameAccumulator::new();
    for &b in &exact {
        assert!(acc.push(b).is_none());
    }
    assert_eq!(acc.len(), 512);
    let frame = acc.push(0x00).expect("Should return frame");
    assert_eq!(frame, exact);
}
