//! The ledger's 32-byte content hash.

use vstd::prelude::*;

verus! {

/// The 32-byte BLAKE2b digest, personalised with `ckb-default-hash`, of a
/// byte string.
pub uninterp spec fn ckb_hash_of(data: Seq<u8>) -> Seq<u8>;

/// Length of every digest.
pub const HASH_LEN: usize = 32;

/// Relies on blake2b_ref's `Blake2bBuilder` (32-byte output, personal tag
/// `ckb-default-hash`), `update` and `finalize`: the digest depends on the
/// bytes alone and fills the 32-byte buffer it is given.
#[verifier::external_body]
pub(crate) fn ckb_hash(data: &[u8]) -> (r: Vec<u8>)
    ensures
        r@ == ckb_hash_of(data@),
        r@.len() == HASH_LEN,
{
    let mut hasher = blake2b_ref::Blake2bBuilder::new(32).personal(b"ckb-default-hash").build();
    hasher.update(data);
    let mut out = [0u8; 32];
    hasher.finalize(&mut out);
    out.to_vec()
}

} // verus!
