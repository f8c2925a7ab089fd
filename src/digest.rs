use vstd::prelude::*;

verus! {

/// The SHA-256 digest of a byte string.
pub uninterp spec fn sha256_of(data: Seq<u8>) -> Seq<u8>;

/// Relies on solana_sha256_hasher::hash: the SHA-256 digest of the bytes,
/// a value of the bytes alone.
#[verifier::external_body]
pub(crate) fn sha256(data: &[u8]) -> (r: [u8; 32])
    ensures
        r@ == sha256_of(data@),
{
    solana_sha256_hasher::hash(data).to_bytes()
}

} // verus!
