//! The identity of a new token: a hash that binds it to the transaction that
//! creates it.

use vstd::prelude::*;
use vstd::slice::slice_to_vec;
use blake2b_rs::Blake2bBuilder;

verus! {

/// The personalization of the hash, the ASCII text `ckb-default-hash`.
pub const HASH_PERSONALIZATION: [u8; 16] = [
    99, 107, 98, 45, 100, 101, 102, 97, 117, 108, 116, 45, 104, 97, 115, 104,
];

/// The 32-byte BLAKE2b digest of `data` under the personalization
/// `personal`, with no key and no salt.
pub uninterp spec fn blake2b_256(personal: Seq<u8>, data: Seq<u8>) -> Seq<u8>;

/// Computes a 32-byte BLAKE2b digest with `blake2b_rs::Blake2bBuilder`: a
/// hasher of output length 32 and the given personalization is fed `data`
/// once and finalized.
///
/// Trusted: the digest is taken to be a function of the personalization and
/// the data alone. The builder rejects a personalization of more than 16
/// bytes, which the precondition leaves out.
#[verifier::external_body]
fn blake2b_256_digest(personal: &[u8], data: &[u8]) -> (digest: [u8; 32])
    requires
        personal@.len() <= 16,
    ensures
        digest@ == blake2b_256(personal@, data@),
{
    let mut hasher = Blake2bBuilder::new(32).personal(personal).build();
    hasher.update(data);
    let mut digest = [0u8; 32];
    hasher.finalize(&mut digest);
    digest
}

/// The `n` low bytes of `x`, lowest first.
pub open spec fn le_bytes(x: nat, n: nat) -> Seq<u8>
    decreases n,
{
    if n == 0 {
        Seq::empty()
    } else {
        seq![(x % 256) as u8] + le_bytes(x / 256, (n - 1) as nat)
    }
}

/// The eight bytes of `x` in little-endian order.
pub fn u64_le_bytes(x: u64) -> (bytes: Vec<u8>)
    ensures
        bytes@ == le_bytes(x as nat, 8),
{
    let mut bytes: Vec<u8> = Vec::new();
    let mut rest: u64 = x;
    let mut i: usize = 0;
    while i < 8
        invariant
            i <= 8,
            bytes@.len() == i,
            le_bytes(x as nat, 8) == bytes@ + le_bytes(rest as nat, (8 - i) as nat),
        decreases 8 - i,
    {
        let low: u8 = (rest % 256) as u8;
        assert(le_bytes(rest as nat, (8 - i) as nat) == seq![low] + le_bytes(
            (rest / 256) as nat,
            (8 - i - 1) as nat,
        ));
        assert(bytes@.push(low) + le_bytes((rest / 256) as nat, (8 - i - 1) as nat) =~= bytes@ + (
        seq![low] + le_bytes((rest / 256) as nat, (8 - i - 1) as nat)));
        bytes.push(low);
        rest = rest / 256;
        i += 1;
    }
    assert(bytes@ + le_bytes(rest as nat, 0) =~= bytes@);
    bytes
}

/// The bytes that are hashed into a token identity: the reference of the
/// first input, then the position of the new cell among the outputs as eight
/// little-endian bytes.
pub open spec fn type_id_preimage(first_input: Seq<u8>, output_index: u64) -> Seq<u8> {
    first_input + le_bytes(output_index as nat, 8)
}

/// The hash that the ledger uses by default: the 32-byte BLAKE2b digest
/// under the personalization `HASH_PERSONALIZATION`.
pub open spec fn ckb_hash_of(data: Seq<u8>) -> Seq<u8> {
    blake2b_256(HASH_PERSONALIZATION@, data)
}

/// The identity of the token that a transaction with the given first input
/// creates at the given position of its outputs.
pub open spec fn type_id_of(first_input: Seq<u8>, output_index: u64) -> Seq<u8> {
    ckb_hash_of(type_id_preimage(first_input, output_index))
}

/// Hashes `data` with the default hash of the ledger.
pub fn ckb_hash(data: &[u8]) -> (digest: [u8; 32])
    ensures
        digest@ == ckb_hash_of(data@),
{
    blake2b_256_digest(HASH_PERSONALIZATION.as_slice(), data)
}

/// Assembles the bytes that are hashed into a token identity.
pub fn build_type_id_preimage(first_input: &[u8], output_index: u64) -> (preimage: Vec<u8>)
    ensures
        preimage@ == type_id_preimage(first_input@, output_index),
{
    let mut preimage: Vec<u8> = slice_to_vec(first_input);
    let mut index_bytes: Vec<u8> = u64_le_bytes(output_index);
    preimage.append(&mut index_bytes);
    preimage
}

/// Derives the identity of a new token. The result depends on the two
/// arguments and on nothing else.
pub fn derive_identity(first_input: &[u8], output_index: u64) -> (id: [u8; 32])
    ensures
        id@ == type_id_of(first_input@, output_index),
{
    let preimage: Vec<u8> = build_type_id_preimage(first_input, output_index);
    ckb_hash(preimage.as_slice())
}

} // verus!
