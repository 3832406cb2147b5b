//! The byte encoding of a block's hash preimage.
//!
//! A block's hash is computed over one byte string composed, in fixed order,
//! from the block's index, the previous block's hash, the transaction digests
//! in batch order, the creation time, and the nonce. The composition is part
//! of the ledger's effective wire format: any change to it changes every hash.
//! Integers are laid down big-endian at fixed widths, byte fields verbatim.

use vstd::prelude::*;
use vstd::seq_lib::*;

verus! {

/// Big-endian bytes of a `u64`, widest byte first.
pub open spec fn u64_be(n: u64) -> Seq<u8> {
    seq![
        (n >> 56) as u8,
        (n >> 48) as u8,
        (n >> 40) as u8,
        (n >> 32) as u8,
        (n >> 24) as u8,
        (n >> 16) as u8,
        (n >> 8) as u8,
        n as u8,
    ]
}

/// Big-endian bytes of a `u32`.
pub open spec fn u32_be(n: u32) -> Seq<u8> {
    seq![(n >> 24) as u8, (n >> 16) as u8, (n >> 8) as u8, n as u8]
}

/// Big-endian bytes of a `u128`.
pub open spec fn u128_be(n: u128) -> Seq<u8> {
    seq![
        (n >> 120) as u8,
        (n >> 112) as u8,
        (n >> 104) as u8,
        (n >> 96) as u8,
        (n >> 88) as u8,
        (n >> 80) as u8,
        (n >> 72) as u8,
        (n >> 64) as u8,
        (n >> 56) as u8,
        (n >> 48) as u8,
        (n >> 40) as u8,
        (n >> 32) as u8,
        (n >> 24) as u8,
        (n >> 16) as u8,
        (n >> 8) as u8,
        n as u8,
    ]
}

/// Big-endian bytes of an `i64`, as its two's-complement `u64` image.
pub open spec fn i64_be(n: i64) -> Seq<u8> {
    u64_be(n as u64)
}

/// The hash preimage of one sealing attempt: `index`, then the previous
/// block's hash, then the transaction digests in order, then the time as
/// seconds and nanoseconds, then the nonce.
pub open spec fn digest_input(
    index: usize,
    prev_hash: Seq<u8>,
    tx_digests: Seq<Seq<u8>>,
    secs: i64,
    nanos: u32,
    nonce: u128,
) -> Seq<u8> {
    u64_be(index as u64) + prev_hash + tx_digests.flatten() + i64_be(secs) + u32_be(nanos)
        + u128_be(nonce)
}

/// Appends the big-endian bytes of `n` to `out`.
pub fn push_u64_be(out: &mut Vec<u8>, n: u64)
    ensures
        final(out)@ == old(out)@ + u64_be(n),
{
    out.push((n >> 56) as u8);
    out.push((n >> 48) as u8);
    out.push((n >> 40) as u8);
    out.push((n >> 32) as u8);
    out.push((n >> 24) as u8);
    out.push((n >> 16) as u8);
    out.push((n >> 8) as u8);
    out.push(n as u8);
    proof {
        assert(out@ =~= old(out)@ + u64_be(n));
    }
}

/// Appends the big-endian bytes of `n` to `out`.
pub fn push_u32_be(out: &mut Vec<u8>, n: u32)
    ensures
        final(out)@ == old(out)@ + u32_be(n),
{
    out.push((n >> 24) as u8);
    out.push((n >> 16) as u8);
    out.push((n >> 8) as u8);
    out.push(n as u8);
    proof {
        assert(out@ =~= old(out)@ + u32_be(n));
    }
}

/// Appends the big-endian bytes of `n` to `out`.
pub fn push_u128_be(out: &mut Vec<u8>, n: u128)
    ensures
        final(out)@ == old(out)@ + u128_be(n),
{
    out.push((n >> 120) as u8);
    out.push((n >> 112) as u8);
    out.push((n >> 104) as u8);
    out.push((n >> 96) as u8);
    out.push((n >> 88) as u8);
    out.push((n >> 80) as u8);
    out.push((n >> 72) as u8);
    out.push((n >> 64) as u8);
    out.push((n >> 56) as u8);
    out.push((n >> 48) as u8);
    out.push((n >> 40) as u8);
    out.push((n >> 32) as u8);
    out.push((n >> 24) as u8);
    out.push((n >> 16) as u8);
    out.push((n >> 8) as u8);
    out.push(n as u8);
    proof {
        assert(out@ =~= old(out)@ + u128_be(n));
    }
}

/// Appends the two's-complement big-endian bytes of `n` to `out`.
pub fn push_i64_be(out: &mut Vec<u8>, n: i64)
    ensures
        final(out)@ == old(out)@ + i64_be(n),
{
    push_u64_be(out, #[verifier::truncate] (n as u64));
}

/// The preimage decomposes at fixed offsets: each field of the composition
/// sits verbatim in its own segment, the previous block's hash at offset 8.
pub proof fn lemma_digest_input_segments(
    index: usize,
    prev_hash: Seq<u8>,
    tx_digests: Seq<Seq<u8>>,
    secs: i64,
    nanos: u32,
    nonce: u128,
)
    ensures
        ({
            let s = digest_input(index, prev_hash, tx_digests, secs, nanos, nonce);
            let p = prev_hash.len() as int;
            let f = tx_digests.flatten().len() as int;
            &&& s.len() == 36 + p + f
            &&& s.subrange(0, 8) == u64_be(index as u64)
            &&& s.subrange(8, 8 + p) == prev_hash
            &&& s.subrange(8 + p, 8 + p + f) == tx_digests.flatten()
            &&& s.subrange(8 + p + f, 16 + p + f) == i64_be(secs)
            &&& s.subrange(16 + p + f, 20 + p + f) == u32_be(nanos)
            &&& s.subrange(20 + p + f, 36 + p + f) == u128_be(nonce)
        }),
{
    let s = digest_input(index, prev_hash, tx_digests, secs, nanos, nonce);
    let p = prev_hash.len() as int;
    let f = tx_digests.flatten().len() as int;
    assert(s.subrange(0, 8) =~= u64_be(index as u64));
    assert(s.subrange(8, 8 + p) =~= prev_hash);
    assert(s.subrange(8 + p, 8 + p + f) =~= tx_digests.flatten());
    assert(s.subrange(8 + p + f, 16 + p + f) =~= i64_be(secs));
    assert(s.subrange(16 + p + f, 20 + p + f) =~= u32_be(nanos));
    assert(s.subrange(20 + p + f, 36 + p + f) =~= u128_be(nonce));
}

/// Two `u64` values with the same big-endian bytes are the same value.
pub proof fn lemma_u64_be_injective(a: u64, b: u64)
    requires
        u64_be(a) == u64_be(b),
    ensures
        a == b,
{
    assert(u64_be(a)[0] == u64_be(b)[0]);
    assert(u64_be(a)[1] == u64_be(b)[1]);
    assert(u64_be(a)[2] == u64_be(b)[2]);
    assert(u64_be(a)[3] == u64_be(b)[3]);
    assert(u64_be(a)[4] == u64_be(b)[4]);
    assert(u64_be(a)[5] == u64_be(b)[5]);
    assert(u64_be(a)[6] == u64_be(b)[6]);
    assert(u64_be(a)[7] == u64_be(b)[7]);
    assert((a >> 56) as u8 == (b >> 56) as u8 && (a >> 48) as u8 == (b >> 48) as u8 && (a >> 40)
        as u8 == (b >> 40) as u8 && (a >> 32) as u8 == (b >> 32) as u8 && (a >> 24) as u8 == (b
        >> 24) as u8 && (a >> 16) as u8 == (b >> 16) as u8 && (a >> 8) as u8 == (b >> 8) as u8
        && a as u8 == b as u8 ==> a == b) by (bit_vector);
}

/// Two `u32` values with the same big-endian bytes are the same value.
pub proof fn lemma_u32_be_injective(a: u32, b: u32)
    requires
        u32_be(a) == u32_be(b),
    ensures
        a == b,
{
    assert(u32_be(a)[0] == u32_be(b)[0]);
    assert(u32_be(a)[1] == u32_be(b)[1]);
    assert(u32_be(a)[2] == u32_be(b)[2]);
    assert(u32_be(a)[3] == u32_be(b)[3]);
    assert((a >> 24) as u8 == (b >> 24) as u8 && (a >> 16) as u8 == (b >> 16) as u8 && (a >> 8)
        as u8 == (b >> 8) as u8 && a as u8 == b as u8 ==> a == b) by (bit_vector);
}

/// Two `i64` values with the same two's-complement big-endian bytes are the
/// same value.
pub proof fn lemma_i64_be_injective(a: i64, b: i64)
    requires
        i64_be(a) == i64_be(b),
    ensures
        a == b,
{
    lemma_u64_be_injective(a as u64, b as u64);
    assert(a as u64 == b as u64 ==> a == b) by (bit_vector);
}

} // verus!
