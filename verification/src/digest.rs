//! The digest that binds a minted identifier to the first input and to the
//! position of the output.

use crate::identifier::Byte32;
use blake2b_rs::Blake2bBuilder;
use vstd::bytes::{spec_u64_to_le_bytes, u64_to_le_bytes};
use vstd::prelude::*;
use vstd::slice::slice_to_vec;

verus! {

/// The personalization of the ledger's default hash: the bytes of
/// `ckb-default-hash`.
pub const CKB_HASH_PERSONALIZATION: [u8; 16] = [
    0x63, 0x6b, 0x62, 0x2d, 0x64, 0x65, 0x66, 0x61, 0x75, 0x6c, 0x74, 0x2d, 0x68, 0x61, 0x73, 0x68,
];

/// The 32-byte BLAKE2b digest of `message` under the personalization
/// `personal`, with no key and no salt.
pub uninterp spec fn blake2b_256(personal: Seq<u8>, message: Seq<u8>) -> Seq<u8>;

/// Hashes `message` with BLAKE2b: `Blake2bBuilder::new(32)` with
/// `personal` set, one `update` with the whole message, then `finalize`
/// into a 32-byte buffer.
///
/// Trusted: the digest is taken to be a function of the personalization and
/// the message alone, which is what BLAKE2b computes. The builder refuses a
/// personalization of more than 16 bytes, so such input is excluded.
#[verifier::external_body]
fn blake2b_256_digest(personal: &[u8], message: &[u8]) -> (digest: Byte32)
    requires
        personal@.len() <= 16,
    ensures
        digest@ == blake2b_256(personal@, message@),
{
    let mut digest = [0u8; 32];
    let mut hasher = Blake2bBuilder::new(digest.len()).personal(personal).build();
    hasher.update(message);
    hasher.finalize(&mut digest);
    digest
}

/// What is hashed for the output at `index`: the raw first input followed by
/// the index as eight little-endian bytes.
pub open spec fn mint_preimage(first_input: Seq<u8>, index: u64) -> Seq<u8> {
    first_input + spec_u64_to_le_bytes(index)
}

/// The only identifier that a mint at output `index` may carry.
pub open spec fn minted_identifier(first_input: Seq<u8>, index: u64) -> Seq<u8> {
    blake2b_256(CKB_HASH_PERSONALIZATION@, mint_preimage(first_input, index))
}

/// Lays out the bytes that are hashed for a mint at output `index`.
pub fn build_mint_preimage(first_input: &[u8], index: u64) -> (message: Vec<u8>)
    ensures
        message@ == mint_preimage(first_input@, index),
{
    let mut message = slice_to_vec(first_input);
    let mut tail = u64_to_le_bytes(index);
    message.append(&mut tail);
    message
}

/// Derives the identifier that a token minted at output `index` must carry,
/// given the raw encoding of the transaction's first input.
///
/// The first input can be spent once only, so no two transactions derive the
/// same identifier, and the index keeps apart the mints of one transaction.
pub fn derive_minted_identifier(first_input: &[u8], index: u64) -> (id: Byte32)
    ensures
        id@ == minted_identifier(first_input@, index),
{
    let message = build_mint_preimage(first_input, index);
    blake2b_256_digest(&CKB_HASH_PERSONALIZATION, message.as_slice())
}

} // verus!
