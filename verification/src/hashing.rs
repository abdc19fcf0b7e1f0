//! The digest used to seed the game-id counter and to derive the
//! stand-in key and puzzle-hash values of the channel facade.

use vstd::prelude::*;
use sha2::Digest;

verus! {

/// The SHA-256 digest of a byte sequence.  The digest depends on the
/// bytes alone, so it carries a name rather than a definition.
pub uninterp spec fn sha256_of(data: Seq<u8>) -> Seq<u8>;

/// Relies on sha2's `Sha256::digest`: a 32-byte digest of the input,
/// a function of the input bytes alone.
#[verifier::external_body]
pub fn sha256(data: &Vec<u8>) -> (r: Vec<u8>)
    ensures
        r@ == sha256_of(data@),
        r@.len() == 32,
{
    sha2::Sha256::digest(data.as_slice()).to_vec()
}

} // verus!
