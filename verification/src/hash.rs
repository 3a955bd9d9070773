//! BLAKE2b digests, named but not modelled: the digest of given bytes at a
//! given length is a fixed value this library does not restate.

use vstd::prelude::*;

verus! {

/// The BLAKE2b digest of `data` with `len` output bytes. A function of its
/// arguments alone; its value is not stated here.
pub uninterp spec fn blake2b_of(len: u64, data: Seq<u8>) -> Seq<u8>;

/// Relies on blake2b_simd's `Params::hash_length`/`update`/`finalize`: the
/// digest is a deterministic function of the output length and input bytes,
/// and has exactly `len` bytes. `hash_length` accepts 1 to 64.
#[verifier::external_body]
pub(crate) fn blake2b_hash(len: u64, data: &[u8]) -> (r: Vec<u8>)
    requires
        1 <= len <= 64,
    ensures
        r@ == blake2b_of(len, data@),
        r@.len() == len,
{
    let digest = blake2b_simd::Params::new()
        .hash_length(len as usize)
        .to_state()
        .update(data)
        .finalize();
    digest.as_bytes().to_vec()
}

/// Generates a BLAKE2b hash of fixed 32 bytes size.
pub fn blake2b_256(ingest: &[u8]) -> (r: Vec<u8>)
    ensures
        r@ == blake2b_of(32, ingest@),
        r@.len() == 32,
{
    blake2b_hash(32, ingest)
}

} // verus!
