use murmur3::mix::{compute_full_word, finalize, murmur_32_scramble, word_from_le_bytes};

#[test]
fn scramble_of_zero_is_zero() {
    assert_eq!(murmur_32_scramble(0), 0);
}

#[test]
fn scramble_exact_values() {
    assert_eq!(murmur_32_scramble(1), 0xc353_9a5d);
    assert_eq!(murmur_32_scramble(0xffff_ffff), 0xbbee_b010);
}

#[test]
fn scramble_wraps_instead_of_overflowing() {
    // 0xffff_ffff * 0xcc9e_2d51 is far beyond 32 bits.
    let _ = murmur_32_scramble(0xffff_ffff);
    let _ = murmur_32_scramble(0x8000_0000);
}

#[test]
fn round_exact_values() {
    assert_eq!(compute_full_word(0, 0), 0xe654_6b64);
    assert_eq!(compute_full_word(0, 1), 0x26cf_0576);
    assert_eq!(compute_full_word(1, 0), 0xe655_0b64);
}

#[test]
fn round_wraps_instead_of_overflowing() {
    let _ = compute_full_word(0xffff_ffff, 0xffff_ffff);
    let _ = compute_full_word(0xffff_ffff, 0);
}

#[test]
fn avalanche_exact_values() {
    assert_eq!(finalize(0), 0);
    assert_eq!(finalize(1), 0x514e_28b7);
    assert_eq!(finalize(0xffff_ffff), 0x81f1_6f39);
}

#[test]
fn word_from_bytes_puts_first_byte_lowest() {
    assert_eq!(word_from_le_bytes(0x21, 0x43, 0x65, 0x87), 0x8765_4321);
    assert_eq!(word_from_le_bytes(1, 0, 0, 0), 1);
    assert_eq!(word_from_le_bytes(0, 0, 0, 1), 0x0100_0000);
    assert_eq!(word_from_le_bytes(0xff, 0xff, 0xff, 0xff), 0xffff_ffff);
    assert_eq!(word_from_le_bytes(0, 0, 0, 0), 0);
}

#[test]
fn word_from_bytes_agrees_with_std() {
    let samples: [[u8; 4]; 5] =
        [[0, 0, 0, 0], [1, 2, 3, 4], [0xde, 0xad, 0xbe, 0xef], [0x80, 0, 0, 0x80], [255, 254, 253, 252]];
    for b in samples {
        assert_eq!(word_from_le_bytes(b[0], b[1], b[2], b[3]), u32::from_le_bytes(b));
    }
}
