//! Content fingerprints: a 64-bit XXH3 hash of the UTF-8 bytes of a text.

use vstd::prelude::*;
use vstd::utf8::encode_utf8;

verus! {

/// The 64-bit XXH3 hash (seed 0) of a byte sequence.
pub uninterp spec fn xxh3_64(data: Seq<u8>) -> u64;

/// The fingerprint of a text: the XXH3 hash of its UTF-8 encoding.
pub open spec fn text_fingerprint(text: Seq<char>) -> u64 {
    xxh3_64(encode_utf8(text))
}

/// Relies on twox_hash::xxh3::hash64: the seed-0 XXH3 hash of the bytes, which
/// depends on the bytes alone.
#[verifier::external_body]
fn hash64(data: &[u8]) -> (r: u64)
    ensures
        r == xxh3_64(data@),
{
    twox_hash::xxh3::hash64(data)
}

/// The fingerprint of `text`.
pub fn fingerprint(text: &str) -> (r: u64)
    ensures
        r == text_fingerprint(text@),
{
    hash64(text.as_bytes())
}

/// Fingerprints are deterministic: the same text always yields the same
/// fingerprint.
pub proof fn lemma_fingerprint_deterministic(a: Seq<char>, b: Seq<char>)
    requires
        a == b,
    ensures
        text_fingerprint(a) == text_fingerprint(b),
{
}

} // verus!
