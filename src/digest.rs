use sha2::Digest;
use vstd::prelude::*;

verus! {

/// The SHA-256 digest of a byte sequence, as computed by the `sha2` crate.
pub uninterp spec fn sha256_of(data: Seq<u8>) -> Seq<u8>;

/// Relies on `sha2::Sha256::digest`: the SHA-256 digest of `data`, whose
/// 32-byte output is converted into an array.
#[verifier::external_body]
pub(crate) fn sha256_digest(data: &[u8]) -> (r: [u8; 32])
    ensures
        r@ == sha256_of(data@),
{
    sha2::Sha256::digest(data).into()
}

} // verus!
