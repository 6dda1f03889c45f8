//! The fixed-length digest that turns a pairing value into a ciphertext tag.

use sha2::Digest;
use vstd::prelude::*;

verus! {

/// Length in bytes of a digest.
pub const DIGEST_LEN: usize = 32;

/// The SHA-256 digest of a byte string.
pub uninterp spec fn sha256_of(data: Seq<u8>) -> Seq<u8>;

/// Calls `sha2::Sha256::digest`. The contract claims that the output is the
/// SHA-256 function of the input bytes and is 32 bytes long.
#[verifier::external_body]
pub(crate) fn sha256(data: &Vec<u8>) -> (out: Vec<u8>)
    ensures
        out@ == sha256_of(data@),
        out@.len() == DIGEST_LEN,
{
    sha2::Sha256::digest(data.as_slice()).to_vec()
}

/// The digest of `data`.
pub fn digest(data: &Vec<u8>) -> (out: Vec<u8>)
    ensures
        out@ == sha256_of(data@),
        out@.len() == DIGEST_LEN,
{
    sha256(data)
}

} // verus!
