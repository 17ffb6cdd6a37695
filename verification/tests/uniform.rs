use vkframe::uniform::{write_slot, UniformRing, FRAMES_IN_FLIGHT};

#[test]
fn there_are_three_frames_in_flight() {
    assert_eq!(FRAMES_IN_FLIGHT, 3);
}

#[test]
fn stride_is_the_larger_of_alignment_and_payload() {
    let aligned = UniformRing::new(256, 68).unwrap();
    assert_eq!(aligned.stride(), 256);
    assert_eq!(aligned.payload(), 68);
    let large = UniformRing::new(64, 68).unwrap();
    assert_eq!(large.stride(), 68);
    let equal = UniformRing::new(64, 64).unwrap();
    assert_eq!(equal.stride(), 64);
}

#[test]
fn buffer_holds_one_stride_per_slot() {
    let ring = UniformRing::new(256, 68).unwrap();
    assert_eq!(ring.size(), 768);
    assert_eq!(ring.offset(0), 0);
    assert_eq!(ring.offset(1), 256);
    assert_eq!(ring.offset(2), 512);
}

#[test]
fn ring_that_offsets_cannot_address_is_refused() {
    assert!(UniformRing::new(0x5555_5555, 4).is_some());
    assert!(UniformRing::new(0x5555_5556, 4).is_none());
    assert!(UniformRing::new(4, 0x5555_5556).is_none());
    assert!(UniformRing::new(u64::MAX, u64::MAX).is_none());
}

#[test]
fn write_touches_only_the_bytes_of_its_slot() {
    let ring = UniformRing::new(16, 5).unwrap();
    let mut buffer = vec![0xaau8; 48];
    write_slot(&mut buffer, &ring, 1, &[1, 2, 3, 4, 5]);
    let mut expected = vec![0xaau8; 48];
    expected[16..21].copy_from_slice(&[1, 2, 3, 4, 5]);
    assert_eq!(buffer, expected);
    write_slot(&mut buffer, &ring, 2, &[9, 8, 7, 6, 5]);
    expected[32..37].copy_from_slice(&[9, 8, 7, 6, 5]);
    assert_eq!(buffer, expected);
    write_slot(&mut buffer, &ring, 0, &[0, 0, 0, 0, 0]);
    expected[0..5].copy_from_slice(&[0, 0, 0, 0, 0]);
    assert_eq!(buffer, expected);
}

#[test]
fn write_fills_a_slot_whose_payload_is_its_stride() {
    let ring = UniformRing::new(2, 4).unwrap();
    let mut buffer = vec![0u8; 12];
    write_slot(&mut buffer, &ring, 2, &[1, 2, 3, 4]);
    assert_eq!(buffer, vec![0, 0, 0, 0, 0, 0, 0, 0, 1, 2, 3, 4]);
}
