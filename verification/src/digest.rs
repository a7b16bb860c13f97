//! The digest applied to a submitted proof URL.

use vstd::prelude::*;

verus! {

/// The 32-byte digest that the hash function assigns to a byte string.
/// The digest is a function of the bytes alone.
pub uninterp spec fn sha256_of(bytes: Seq<u8>) -> Seq<u8>;

/// Relies on sha2::Sha256 through sha2's Digest trait: the digest has
/// 32 bytes and depends on the input bytes alone.
#[verifier::external_body]
pub(crate) fn sha256(bytes: &[u8]) -> (r: Vec<u8>)
    ensures
        r@ == sha256_of(bytes@),
        r@.len() == 32,
{
    <sha2::Sha256 as sha2::Digest>::digest(bytes).to_vec()
}

} // verus!
