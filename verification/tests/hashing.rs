use ahash::etna::{collision_message, hash_bytes, property_null_padding_distinct, PropertyResult};
use ahash::fallback_hash::{AHasher, MULTIPLE};
use ahash::operations::{folded_multiply, read_le, read_small, rotate_left};
use ahash::random_state::{RandomState, PI2_0, PI2_1, PI2_2, PI2_3};

#[test]
fn hash_of_empty_input() {
    assert_eq!(hash_bytes(&[]), 0x6354fdac89c66b55);
}

#[test]
fn hash_of_one_zero_byte() {
    assert_eq!(hash_bytes(&[0]), 0xcbe5a7dfbeb08c33);
}

#[test]
fn hash_of_short_inputs() {
    assert_eq!(hash_bytes(b"z"), 0x7ab1e4c0b3ad4f37);
    assert_eq!(hash_bytes(b"ab"), 0x5d49658a88e5eb04);
    assert_eq!(hash_bytes(b"hello"), 0x41b7e059d4aa73ff);
}

#[test]
fn hash_of_medium_input() {
    assert_eq!(hash_bytes(b"hello world!"), 0x0337c8a31105a45b);
}

#[test]
fn hash_of_long_input() {
    assert_eq!(hash_bytes(b"The quick brown fox jumps over the lazy dog"), 0x5de814e1d37c7550);
}

#[test]
fn hash_of_zero_inputs() {
    assert_eq!(hash_bytes(&[0u8; 5]), 0xe7a6c1c3a9944cb9);
    assert_eq!(hash_bytes(&[0u8; 8]), 0x5ee412cc9fdaccba);
    assert_eq!(hash_bytes(&[0u8; 64]), 0x2fa469a482bc4667);
}

#[test]
fn zero_inputs_up_to_64_bytes_hash_apart() {
    let hashes: Vec<u64> = (0..=64usize).map(|n| hash_bytes(&vec![0u8; n])).collect();
    for i in 0..hashes.len() {
        for j in 0..i {
            assert_ne!(hashes[i], hashes[j], "lengths {} and {}", i, j);
        }
    }
}

#[test]
fn zero_inputs_up_to_255_bytes_hash_apart() {
    let mut hashes: Vec<u64> = (0..=255usize).map(|n| hash_bytes(&vec![0u8; n])).collect();
    hashes.sort();
    hashes.dedup();
    assert_eq!(hashes.len(), 256);
}

#[test]
fn hash_is_deterministic() {
    let data = b"same input, same hash";
    assert_eq!(hash_bytes(data), hash_bytes(data));
}

#[test]
fn seeds_are_combined_with_constants() {
    let s = RandomState::with_seeds(0, 0, 0, 0);
    assert_eq!((s.k0, s.k1, s.k2, s.k3), (PI2_0, PI2_1, PI2_2, PI2_3));
    let t = RandomState::with_seeds(1, 2, 3, 4);
    assert_eq!((t.k0, t.k1, t.k2, t.k3), (PI2_0 ^ 1, PI2_1 ^ 2, PI2_2 ^ 3, PI2_3 ^ 4));
}

#[test]
fn hasher_takes_its_state_from_the_keys() {
    let h = RandomState::with_seeds(5, 6, 7, 8).build_hasher();
    assert_eq!(h.buffer, PI2_1 ^ 6);
    assert_eq!(h.pad, PI2_0 ^ 5);
    assert_eq!(h.extra_keys, [PI2_2 ^ 7, PI2_3 ^ 8]);
}

#[test]
fn write_mixes_the_length_first() {
    // Two all-zero inputs of different lengths in the same number of blocks
    // leave different buffers.
    let state = RandomState::with_seeds(0, 0, 0, 0);
    let mut a: AHasher = state.build_hasher();
    let mut b: AHasher = state.build_hasher();
    a.write(&[0u8; 3]);
    b.write(&[0u8; 6]);
    assert_ne!(a.buffer, b.buffer);
    assert_eq!(a.pad, b.pad);
}

#[test]
fn folded_multiply_values() {
    assert_eq!(folded_multiply(0, 12345), 0);
    assert_eq!(folded_multiply(3, 5), 15);
    // (2^64 - 1)^2 = 2^128 - 2^65 + 1: low half 1, high half 2^64 - 2.
    assert_eq!(folded_multiply(u64::MAX, u64::MAX), 1 ^ (u64::MAX - 1));
    assert_eq!(folded_multiply(1 << 63, 4), 2);
}

#[test]
fn rotate_left_values() {
    assert_eq!(rotate_left(1, 0), 1);
    assert_eq!(rotate_left(1, 63), 1 << 63);
    assert_eq!(rotate_left(0x8000_0000_0000_0001, 1), 3);
    assert_eq!(rotate_left(0x0123_4567_89ab_cdef, 23), 0x0123_4567_89ab_cdefu64.rotate_left(23));
    assert_eq!(rotate_left(1, 64), 1);
    assert_eq!(rotate_left(1, 65), 2);
    assert_eq!(rotate_left(0x0123_4567_89ab_cdef, 87), 0x0123_4567_89ab_cdefu64.rotate_left(87));
}

#[test]
fn little_endian_reads() {
    let data = [1u8, 2, 3, 4, 5, 6, 7, 8, 9];
    assert_eq!(read_le(&data, 0, 8), 0x0807_0605_0403_0201);
    assert_eq!(read_le(&data, 1, 8), 0x0908_0706_0504_0302);
    assert_eq!(read_le(&data, 2, 2), 0x0403);
    assert_eq!(read_le(&data, 4, 0), 0);
}

#[test]
fn short_reads() {
    assert_eq!(read_small(&[]), (0, 0));
    assert_eq!(read_small(&[7]), (7, 7));
    assert_eq!(read_small(&[1, 2, 3]), (0x0201, 3));
    assert_eq!(read_small(&[1, 2, 3, 4, 5, 6]), (0x0403_0201, 0x0605_0403));
}

#[test]
fn length_mixing_multiplier() {
    assert_eq!(MULTIPLE, 6364136223846793005);
}

#[test]
fn equal_lengths_are_discarded() {
    for n in [0u8, 1, 64, 255] {
        assert_eq!(property_null_padding_distinct((n, n)), PropertyResult::Discard);
    }
}

#[test]
fn distinct_lengths_pass() {
    assert_eq!(property_null_padding_distinct((64, 63)), PropertyResult::Pass);
    assert_eq!(property_null_padding_distinct((17, 33)), PropertyResult::Pass);
    assert_eq!(property_null_padding_distinct((200, 255)), PropertyResult::Pass);
}

#[test]
fn collision_report_text() {
    assert_eq!(
        collision_message(0, 1, 0xc3acadb48856bc1e),
        "hash([0u8; 0]) == hash([0u8; 1]) == 0xc3acadb48856bc1e"
    );
    assert_eq!(collision_message(12, 255, 0), "hash([0u8; 12]) == hash([0u8; 255]) == 0x0");
}
