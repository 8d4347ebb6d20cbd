use murmur3::Murmur3;
use std::hash::Hasher;

fn hash_of(seed: u32, bytes: &[u8]) -> u64 {
    let mut h = Murmur3::new(seed);
    h.write(bytes);
    h.finish()
}

#[test]
fn empty_input_with_seed_zero_hashes_to_zero() {
    assert_eq!(hash_of(0, b""), 0);
}

#[test]
fn fresh_hasher_without_any_write_hashes_like_empty_input() {
    assert_eq!(Murmur3::new(0).finish(), 0);
    assert_eq!(Murmur3::new(1).finish(), 0x514e_28b7);
    assert_eq!(Murmur3::new(0xffff_ffff).finish(), 0x81f1_6f39);
}

#[test]
fn single_byte_a_with_seed_zero() {
    assert_eq!(hash_of(0, &[0x61]), 0x3c25_69b2);
}

#[test]
fn empty_input_with_other_seeds() {
    assert_eq!(hash_of(1, b""), 0x514e_28b7);
    assert_eq!(hash_of(0xffff_ffff, b""), 0x81f1_6f39);
}

#[test]
fn zero_bytes_of_every_tail_length() {
    assert_eq!(hash_of(0, &[0]), 0x514e_28b7);
    assert_eq!(hash_of(0, &[0, 0]), 0x30f4_c306);
    assert_eq!(hash_of(0, &[0, 0, 0]), 0x85f0_b427);
    assert_eq!(hash_of(0, &[0, 0, 0, 0]), 0x2362_f9de);
}

#[test]
fn words_are_read_little_endian() {
    assert_eq!(hash_of(0, &[0x21, 0x43, 0x65, 0x87]), 0xf55b_516b);
    assert_eq!(hash_of(0x5082_edee, &[0x21, 0x43, 0x65, 0x87]), 0x2362_f9de);
    assert_ne!(hash_of(0, &[0x87, 0x65, 0x43, 0x21]), 0xf55b_516b);
}

#[test]
fn tails_are_read_little_endian_and_zero_padded() {
    assert_eq!(hash_of(0, &[0x21, 0x43, 0x65]), 0x7e4a_8634);
    assert_eq!(hash_of(0, &[0x21, 0x43]), 0xa0f7_b07a);
    assert_eq!(hash_of(0, &[0x21]), 0x7266_1cf4);
}

#[test]
fn all_ones_word() {
    assert_eq!(hash_of(0, &[0xff, 0xff, 0xff, 0xff]), 0x7629_3b50);
}

#[test]
fn short_texts_with_seed_zero() {
    assert_eq!(hash_of(0, b"abc"), 0xb3dd_93fa);
    assert_eq!(hash_of(0, b"test"), 0xba6b_d213);
    assert_eq!(hash_of(0, b"Hello, world!"), 0xc036_3e43);
}

#[test]
fn short_texts_with_a_nonzero_seed() {
    let seed: u32 = 0x9747_b28c;
    assert_eq!(hash_of(seed, b"a"), 0x7fa0_9ea6);
    assert_eq!(hash_of(seed, b"aa"), 0x5d21_1726);
    assert_eq!(hash_of(seed, b"aaa"), 0x283e_0130);
    assert_eq!(hash_of(seed, b"aaaa"), 0x5a97_808a);
    assert_eq!(hash_of(seed, b"ab"), 0x7487_5592);
    assert_eq!(hash_of(seed, b"abc"), 0xc84a_62dd);
    assert_eq!(hash_of(seed, b"abcd"), 0xf047_8627);
    assert_eq!(hash_of(seed, b"Hello, world!"), 0x2488_4cba);
}

#[test]
fn a_sentence_with_both_seeds() {
    let text = b"The quick brown fox jumps over the lazy dog";
    assert_eq!(hash_of(0, text), 0x2e4f_f723);
    assert_eq!(hash_of(0x9747_b28c, text), 0x2fa8_26cd);
}

#[test]
fn all_byte_values_in_order() {
    let bytes: Vec<u8> = (0..=255u8).collect();
    assert_eq!(hash_of(0, &bytes), 0xe40a_0e56);
    assert_eq!(hash_of(42, &bytes), 0xa895_26f3);
}

#[test]
fn result_is_zero_extended_to_64_bits() {
    let inputs: [&[u8]; 4] = [b"", b"a", b"\xff\xff\xff\xff", b"Hello, world!"];
    for seed in [0u32, 1, 0x8000_0000, 0xffff_ffff] {
        for bytes in inputs {
            assert!(hash_of(seed, bytes) <= u64::from(u32::MAX));
        }
    }
    // A value with the top bit of the low word set stays positive and small.
    assert_eq!(hash_of(0, b"Hello, world!"), 0x0000_0000_c036_3e43);
}
