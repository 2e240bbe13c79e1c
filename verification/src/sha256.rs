//! SHA-256 hashing, named abstractly and computed by the ledger runtime's
//! hashing crate.

use vstd::prelude::*;
use crate::types::Digest32;

verus! {

/// The SHA-256 digest of a byte sequence. The digest of given bytes is a
/// fixed 32-byte value; nothing more is assumed of it.
pub uninterp spec fn sha256_of(data: Seq<u8>) -> Seq<u8>;

/// Relies on `solana_program::hash::hash`: the SHA-256 digest of the input
/// bytes, a function of those bytes alone.
#[verifier::external_body]
pub fn sha256(data: &[u8]) -> (r: Digest32)
    ensures
        r@ == sha256_of(data@),
{
    solana_program::hash::hash(data).to_bytes()
}

/// The two inputs laid end to end, then hashed.
pub open spec fn sha256_pair_of(a: Seq<u8>, b: Seq<u8>) -> Seq<u8> {
    sha256_of(a + b)
}

/// SHA-256 over the concatenation of two byte slices.
pub fn sha256_pair(a: &[u8], b: &[u8]) -> (r: Digest32)
    ensures
        r@ == sha256_pair_of(a@, b@),
{
    let mut data: Vec<u8> = Vec::new();
    data.extend_from_slice(a);
    data.extend_from_slice(b);
    assert(data@ =~= a@ + b@);
    sha256(data.as_slice())
}

/// SHA-256 over the concatenation of three byte slices.
pub fn sha256_triple(a: &[u8], b: &[u8], c: &[u8]) -> (r: Digest32)
    ensures
        r@ == sha256_of(a@ + b@ + c@),
{
    let mut data: Vec<u8> = Vec::new();
    data.extend_from_slice(a);
    data.extend_from_slice(b);
    data.extend_from_slice(c);
    assert(data@ =~= a@ + b@ + c@);
    sha256(data.as_slice())
}

} // verus!
