//! The hash primitive and the proof-of-work predicate.
//!
//! A block's identity is the SHA-512 digest of its preimage bytes. The
//! digest itself is named, not written out: `sha512_of` stands for what the
//! outside hash function returns, and every contract that speaks of a block's
//! hash speaks through that name.

use vstd::prelude::*;

verus! {

/// The marker byte of the proof-of-work predicate (ASCII `E`).
pub const MARKER: u8 = 69;

/// The SHA-512 digest of a byte sequence, as the outside hash function
/// computes it: a function of the input bytes alone.
pub uninterp spec fn sha512_of(input: Seq<u8>) -> Seq<u8>;

/// Relies on `sha2::Sha512` through `digest::Digest::digest`: the SHA-512
/// digest of the input bytes, a function of those bytes alone, 64 bytes long.
#[verifier::external_body]
pub(crate) fn sha512(input: &Vec<u8>) -> (r: [u8; 64])
    ensures
        r@ == sha512_of(input@),
        r@.len() == 64,
{
    let digest = <sha2::Sha512 as sha2::Digest>::digest(input.as_slice());
    let mut out = [0u8; 64];
    out.copy_from_slice(digest.as_slice());
    out
}

/// The proof-of-work predicate: a hash qualifies when its first two bytes
/// are both the marker.
pub open spec fn pow_ok(h: Seq<u8>) -> bool {
    h.len() == 64 && h[0] == MARKER && h[1] == MARKER
}

} // verus!
