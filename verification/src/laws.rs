//! The laws of sealing, stated on their own and proved from the library's
//! contracts: what every sealed block satisfies, what the recorded nonce
//! means, and how the hash preimage reacts to its inputs.

use vstd::prelude::*;
use crate::block::{attempt_digest, sealed_from, BlockView};
use crate::encoding::{
    digest_input, lemma_digest_input_segments, lemma_i64_be_injective, lemma_u32_be_injective,
    i64_be, u32_be,
};
use crate::hashing::{pow_ok, MARKER};
use crate::time::Timestamp;

verus! {

/// One sealing attempt is a pure function of the block's contents and the
/// nonce: replaying the digest composition and the hash for the same index,
/// predecessor hash, transaction digests, time and nonce yields the same
/// bytes.
pub proof fn lemma_attempt_deterministic(
    r1: Seq<u8>,
    r2: Seq<u8>,
    index: usize,
    prev_hash: Seq<u8>,
    tx_digests: Seq<Seq<u8>>,
    time: Timestamp,
    nonce: u128,
)
    requires
        r1 == attempt_digest(index, prev_hash, tx_digests, time, nonce),
        r2 == attempt_digest(index, prev_hash, tx_digests, time, nonce),
    ensures
        r1 == r2,
{
}

/// Every sealed block's hash satisfies the proof-of-work predicate: it is 64
/// bytes long and its first two bytes are both the marker.
pub proof fn lemma_sealed_hash_qualifies(
    b: BlockView,
    index: usize,
    prev_hash: Seq<u8>,
    tx_digests: Seq<Seq<u8>>,
    time: Timestamp,
)
    requires
        sealed_from(b, index, prev_hash, tx_digests, time),
    ensures
        b.hash.len() == 64,
        b.hash[0] == MARKER,
        b.hash[1] == MARKER,
{
}

/// The recorded nonce counts exactly the failed attempts before the accepted
/// one: nonce 0 is tried first, every nonce below the recorded one fails the
/// predicate, and the block's hash is the attempt at the recorded nonce,
/// which succeeds.
pub proof fn lemma_nonce_counts_failed_attempts(
    b: BlockView,
    index: usize,
    prev_hash: Seq<u8>,
    tx_digests: Seq<Seq<u8>>,
    time: Timestamp,
)
    requires
        sealed_from(b, index, prev_hash, tx_digests, time),
    ensures
        forall|m: u128|
            m < b.nonce ==> !pow_ok(
                #[trigger] attempt_digest(index, prev_hash, tx_digests, time, m),
            ),
        b.hash == attempt_digest(index, prev_hash, tx_digests, time, b.nonce),
        pow_ok(attempt_digest(index, prev_hash, tx_digests, time, b.nonce)),
{
}

/// Two distinct creation instants give distinct hash preimages, for the same
/// index, predecessor hash and transaction digests, whatever the nonces. The
/// step from distinct preimages to distinct hashes rests on the hash
/// function's collision resistance, which is not stated here.
pub proof fn lemma_time_changes_preimage(
    index: usize,
    prev_hash: Seq<u8>,
    tx_digests: Seq<Seq<u8>>,
    t1: Timestamp,
    t2: Timestamp,
    n1: u128,
    n2: u128,
)
    requires
        t1 != t2,
    ensures
        digest_input(index, prev_hash, tx_digests, t1.secs, t1.nanos, n1) != digest_input(
            index,
            prev_hash,
            tx_digests,
            t2.secs,
            t2.nanos,
            n2,
        ),
{
    let s1 = digest_input(index, prev_hash, tx_digests, t1.secs, t1.nanos, n1);
    let s2 = digest_input(index, prev_hash, tx_digests, t2.secs, t2.nanos, n2);
    if s1 == s2 {
        lemma_digest_input_segments(index, prev_hash, tx_digests, t1.secs, t1.nanos, n1);
        lemma_digest_input_segments(index, prev_hash, tx_digests, t2.secs, t2.nanos, n2);
        assert(i64_be(t1.secs) == i64_be(t2.secs));
        assert(u32_be(t1.nanos) == u32_be(t2.nanos));
        lemma_i64_be_injective(t1.secs, t2.secs);
        lemma_u32_be_injective(t1.nanos, t2.nanos);
        assert(t1 == t2);
        assert(false);
    }
}

/// Sealing the same two transactions in the other order gives a distinct
/// hash preimage, whatever the nonces, as long as their digests differ. The
/// step from distinct preimages to distinct hashes again rests on collision
/// resistance, which is not stated here.
pub proof fn lemma_order_changes_preimage(
    index: usize,
    prev_hash: Seq<u8>,
    d1: Seq<u8>,
    d2: Seq<u8>,
    time: Timestamp,
    n1: u128,
    n2: u128,
)
    requires
        d1 != d2,
        d1.len() == 64,
        d2.len() == 64,
    ensures
        digest_input(index, prev_hash, seq![d1, d2], time.secs, time.nanos, n1) != digest_input(
            index,
            prev_hash,
            seq![d2, d1],
            time.secs,
            time.nanos,
            n2,
        ),
{
    let ds1 = seq![d1, d2];
    let ds2 = seq![d2, d1];
    reveal_with_fuel(Seq::<_>::flatten, 4);
    assert(ds1.flatten() =~= d1 + d2);
    assert(ds2.flatten() =~= d2 + d1);
    let s1 = digest_input(index, prev_hash, ds1, time.secs, time.nanos, n1);
    let s2 = digest_input(index, prev_hash, ds2, time.secs, time.nanos, n2);
    if s1 == s2 {
        lemma_digest_input_segments(index, prev_hash, ds1, time.secs, time.nanos, n1);
        lemma_digest_input_segments(index, prev_hash, ds2, time.secs, time.nanos, n2);
        assert(d1 + d2 == d2 + d1);
        assert((d1 + d2).subrange(0, 64) =~= d1);
        assert((d2 + d1).subrange(0, 64) =~= d2);
        assert(d1 == d2);
        assert(false);
    }
}

} // verus!
