//! Content hashing: a SHA-256 digest, base-58 encoded.
//!
//! Record identities in this ledger are content-derived: the digest of the
//! concatenated fields. The digest itself comes from outside crates and is
//! named, not restated.
use vstd::prelude::*;
use sha2::Digest;

verus! {

/// What hashing a string returns: sha2's SHA-256 digest of its bytes,
/// base-58 encoded by bs58. A pure function of the input characters alone.
pub uninterp spec fn digest_of(s: Seq<char>) -> Seq<char>;

/// Relies on sha2's `Sha256::digest` (a 32-byte digest, a function of the
/// input bytes alone) and bs58's `EncodeBuilder::into_string` (the base-58
/// numeral of those bytes, at least one character for a 32-byte input).
#[verifier::external_body]
pub fn hasher(content: String) -> (r: String)
    ensures
        r@ == digest_of(content@),
        r@.len() > 0,
{
    bs58::encode(sha2::Sha256::digest(content.as_bytes())).into_string()
}

/// `hasher` over the concatenation of two strings, as used to derive a
/// contract's program id from its bytecode and its owner's key.
pub fn hash_pair(a: &str, b: &str) -> (r: String)
    ensures
        r@ == digest_of(a@ + b@),
        r@.len() > 0,
{
    let mut s = String::new();
    s.append(a);
    s.append(b);
    proof {
        assert(s@ =~= a@ + b@);
    }
    hasher(s)
}

} // verus!
