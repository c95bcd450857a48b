//! SHA-256, as `bitcoin_hashes` computes it.

use vstd::prelude::*;

verus! {

/// The SHA-256 digest of `data`: 32 bytes.
pub uninterp spec fn sha256_digest(data: Seq<u8>) -> Seq<u8>;

/// SHA-256 applied twice, as the ledger hashes transactions.
pub open spec fn sha256d_digest(data: Seq<u8>) -> Seq<u8> {
    sha256_digest(sha256_digest(data))
}

/// The SHA-256 digest of `data`.
///
/// Calls `sha256::Hash::hash` and takes the 32 bytes of the digest.
#[verifier::external_body]
pub(crate) fn sha256(data: &[u8]) -> (r: [u8; 32])
    ensures
        r@ == sha256_digest(data@),
{
    bitcoin_hashes::Hash::to_byte_array(
        <bitcoin_hashes::sha256::Hash as bitcoin_hashes::Hash>::hash(data),
    )
}

/// SHA-256 of the SHA-256 of `data`.
pub fn sha256d(data: &[u8]) -> (r: [u8; 32])
    ensures
        r@ == sha256d_digest(data@),
{
    let once = sha256(data);
    sha256(once.as_slice())
}

} // verus!
