//! The digest behind minted identifiers.

use blake2b_rs::Blake2bBuilder;
use nft_validator::{build_mint_preimage, derive_minted_identifier, CKB_HASH_PERSONALIZATION};

fn sample_input() -> Vec<u8> {
    (0u8..44).collect()
}

#[test]
fn personalization_is_the_ledger_default() {
    assert_eq!(&CKB_HASH_PERSONALIZATION[..], &b"ckb-default-hash"[..]);
}

#[test]
fn preimage_is_input_then_little_endian_index() {
    let message = build_mint_preimage(&[0xde, 0xad], 1);
    assert_eq!(message, vec![0xde, 0xad, 1, 0, 0, 0, 0, 0, 0, 0]);
}

#[test]
fn preimage_orders_index_bytes_low_to_high() {
    let message = build_mint_preimage(&[], 0x0102_0304_0506_0708);
    assert_eq!(message, vec![8, 7, 6, 5, 4, 3, 2, 1]);
}

#[test]
fn preimage_of_largest_index() {
    let message = build_mint_preimage(&[5], u64::MAX);
    assert_eq!(message, vec![5, 0xff, 0xff, 0xff, 0xff, 0xff, 0xff, 0xff, 0xff]);
}

#[test]
fn minted_identifier_at_index_zero() {
    let expected = [
        0x6c, 0x2a, 0x90, 0x1a, 0x2d, 0x77, 0xf8, 0x8f, 0x63, 0x04, 0x13, 0x33, 0x9f, 0x19, 0xe5,
        0x0f, 0x00, 0xb5, 0xe9, 0x62, 0xe0, 0x41, 0xfe, 0xbb, 0x53, 0xf9, 0x41, 0x01, 0x62, 0x67,
        0x2e, 0xbc,
    ];
    assert_eq!(derive_minted_identifier(&sample_input(), 0), expected);
}

#[test]
fn minted_identifier_at_index_one() {
    let expected = [
        0xe2, 0x32, 0x0f, 0x29, 0xc5, 0x27, 0xdf, 0xda, 0x71, 0x47, 0x94, 0xa7, 0x12, 0x38, 0xcc,
        0xa5, 0x2f, 0x8b, 0x18, 0x0b, 0xe9, 0xc1, 0x5f, 0x90, 0xfe, 0x00, 0x50, 0xaf, 0x0f, 0x83,
        0xd2, 0x7d,
    ];
    assert_eq!(derive_minted_identifier(&sample_input(), 1), expected);
}

#[test]
fn minted_identifier_at_a_wide_index() {
    let expected = [
        0x47, 0x62, 0xba, 0x9a, 0x47, 0x37, 0xf9, 0x7c, 0x51, 0xa8, 0x5e, 0x62, 0x36, 0x87, 0x47,
        0xa0, 0xd0, 0x40, 0xba, 0x41, 0x1d, 0x00, 0x51, 0xec, 0x16, 0x2e, 0x97, 0xd5, 0xe9, 0x80,
        0x98, 0x7c,
    ];
    assert_eq!(derive_minted_identifier(&sample_input(), 0x0102_0304_0506_0708), expected);
}

#[test]
fn minted_identifier_of_an_empty_input() {
    let expected = [
        0xa1, 0x36, 0x11, 0xce, 0x42, 0x2f, 0x5f, 0x34, 0x30, 0x37, 0x42, 0x4a, 0x8a, 0xe9, 0x28,
        0xd6, 0x02, 0x85, 0xdb, 0xe0, 0x2f, 0x10, 0x5b, 0x6f, 0x71, 0x88, 0x2c, 0x2d, 0x23, 0x3f,
        0x36, 0x88,
    ];
    assert_eq!(derive_minted_identifier(&[], 0), expected);
}

#[test]
fn minted_identifier_matches_two_updates_of_the_hasher() {
    let input = sample_input();
    for index in [0u64, 1, 2, 255, 256, 65_536, u64::MAX] {
        let mut blake2b = Blake2bBuilder::new(32)
            .personal(b"ckb-default-hash")
            .build();
        blake2b.update(&input);
        blake2b.update(&index.to_le_bytes());
        let mut hash = [0u8; 32];
        blake2b.finalize(&mut hash[..]);
        assert_eq!(derive_minted_identifier(&input, index), hash);
    }
}

#[test]
fn minted_identifier_depends_on_index_and_input() {
    let input = sample_input();
    let mut other = sample_input();
    other[43] ^= 1;
    assert_ne!(derive_minted_identifier(&input, 0), derive_minted_identifier(&input, 1));
    assert_ne!(derive_minted_identifier(&input, 1), derive_minted_identifier(&other, 1));
}

#[test]
fn minted_identifier_is_not_a_prefix_of_its_input() {
    let input = sample_input();
    let id = derive_minted_identifier(&input, 1);
    assert_ne!(&id[..], &input[..32]);
    assert_ne!(&id[..], &build_mint_preimage(&input, 1)[..32]);
}

#[test]
fn minted_identifier_is_the_same_each_time() {
    let input = sample_input();
    assert_eq!(derive_minted_identifier(&input, 9), derive_minted_identifier(&input, 9));
}
