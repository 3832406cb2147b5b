//! The block and its proof-of-work sealing.
//!
//! A block is created exactly once, by sealing: the creation time is captured,
//! and then nonces are tried in order from zero until the SHA-512 digest of
//! the attempt's preimage satisfies the proof-of-work predicate. The returned
//! block is immutable, its hash qualifies, and its nonce counts exactly the
//! failed attempts that came before the accepted one.
//!
//! The search has no success guarantee: it ends only when a nonce qualifies,
//! and the nonce space, though astronomically large, is finite. A search that
//! exhausts it comes back empty; that outcome is the finite image of the
//! unbounded search never halting, and no qualifying block exists for that
//! preimage family when it happens.

use vstd::prelude::*;
use vstd::seq_lib::*;
use crate::encoding::{digest_input, push_i64_be, push_u128_be, push_u32_be, push_u64_be};
use crate::hashing::{pow_ok, sha512, sha512_of, MARKER};
use crate::time::{utc_now, Timestamp};
use crate::transaction::Transaction;

verus! {

/// The digests of a transaction batch, in batch order.
pub open spec fn digests_of(ts: Seq<Transaction>) -> Seq<Seq<u8>> {
    ts.map_values(|t: Transaction| t@)
}

/// The hash that the sealing attempt at `nonce` computes, for a block with
/// the given index, predecessor hash, transaction digests and creation time.
pub open spec fn attempt_digest(
    index: usize,
    prev_hash: Seq<u8>,
    tx_digests: Seq<Seq<u8>>,
    time: Timestamp,
    nonce: u128,
) -> Seq<u8> {
    sha512_of(digest_input(index, prev_hash, tx_digests, time.secs, time.nanos, nonce))
}

/// No nonce at all qualifies for this preimage family: the whole search
/// space is exhausted without a proof of work.
pub open spec fn space_exhausted(
    index: usize,
    prev_hash: Seq<u8>,
    tx_digests: Seq<Seq<u8>>,
    time: Timestamp,
) -> bool {
    forall|m: u128| !pow_ok(#[trigger] attempt_digest(index, prev_hash, tx_digests, time, m))
}

/// The all-zero 64-byte sentinel that stands in for the predecessor hash of
/// the genesis block.
pub open spec fn zero_hash() -> Seq<u8> {
    Seq::new(64, |i: int| 0u8)
}

/// The mathematical image of a sealed block.
pub ghost struct BlockView {
    pub index: usize,
    pub prev_hash: Seq<u8>,
    pub tx_digests: Seq<Seq<u8>>,
    pub nonce: u128,
    pub time: Timestamp,
    pub hash: Seq<u8>,
}

/// What sealing establishes, and what every sealed block keeps: its hash is
/// the digest of its own preimage at its recorded nonce, that hash satisfies
/// the proof-of-work predicate, and every smaller nonce failed.
pub open spec fn sealed_from(
    b: BlockView,
    index: usize,
    prev_hash: Seq<u8>,
    tx_digests: Seq<Seq<u8>>,
    time: Timestamp,
) -> bool {
    &&& b.index == index
    &&& b.prev_hash == prev_hash
    &&& b.tx_digests == tx_digests
    &&& b.time == time
    &&& b.hash == attempt_digest(index, prev_hash, tx_digests, time, b.nonce)
    &&& pow_ok(b.hash)
    &&& forall|m: u128|
        m < b.nonce ==> !pow_ok(#[trigger] attempt_digest(index, prev_hash, tx_digests, time, m))
}

/// One block of the chain: its position, the hash of its predecessor, the
/// transactions it carries, the nonce found by the proof-of-work search, the
/// instant it was created, and its own qualifying hash.
pub struct Block {
    index: usize,
    prev_hash: [u8; 64],
    transactions: Vec<Transaction>,
    nonce: u128,
    time: Timestamp,
    hash: [u8; 64],
}

impl View for Block {
    type V = BlockView;

    closed spec fn view(&self) -> BlockView {
        BlockView {
            index: self.index,
            prev_hash: self.prev_hash@,
            tx_digests: digests_of(self.transactions@),
            nonce: self.nonce,
            time: self.time,
            hash: self.hash@,
        }
    }
}

/// Builds the preimage of one sealing attempt: the exact byte string that is
/// hashed for the given index, predecessor hash, transaction batch, time and
/// nonce. Replaying it for the same inputs yields the same bytes.
#[verifier::loop_isolation(false)]
pub fn attempt_input(
    index: usize,
    prev_hash: &[u8; 64],
    transactions: &Vec<Transaction>,
    time: Timestamp,
    nonce: u128,
) -> (r: Vec<u8>)
    ensures
        r@ == digest_input(
            index,
            prev_hash@,
            digests_of(transactions@),
            time.secs,
            time.nanos,
            nonce,
        ),
{
    let mut out: Vec<u8> = Vec::new();
    push_u64_be(&mut out, index as u64);
    let mut j: usize = 0;
    while j < 64
        invariant
            j <= 64,
            out@ == crate::encoding::u64_be(index as u64) + prev_hash@.take(j as int),
        decreases 64 - j,
    {
        out.push(prev_hash[j]);
        proof {
            assert(prev_hash@.take(j + 1) =~= prev_hash@.take(j as int).push(prev_hash@[j as int]));
        }
        j = j + 1;
    }
    proof {
        assert(prev_hash@.take(64) =~= prev_hash@);
    }
    let ghost base: Seq<u8> = crate::encoding::u64_be(index as u64) + prev_hash@;
    let mut i: usize = 0;
    while i < transactions.len()
        invariant
            i <= transactions@.len(),
            out@ == base + digests_of(transactions@.take(i as int)).flatten(),
        decreases transactions@.len() - i,
    {
        let d = transactions[i].hash();
        let ghost before: Seq<u8> = out@;
        let mut k: usize = 0;
        while k < 64
            invariant
                k <= 64,
                out@ == before + d@.take(k as int),
            decreases 64 - k,
        {
            out.push(d[k]);
            proof {
                assert(d@.take(k + 1) =~= d@.take(k as int).push(d@[k as int]));
            }
            k = k + 1;
        }
        proof {
            assert(d@.take(64) =~= d@);
            let taken = digests_of(transactions@.take(i as int));
            taken.lemma_flatten_push(transactions@[i as int]@);
            assert(digests_of(transactions@.take(i + 1)) =~= taken.push(
                transactions@[i as int]@,
            ));
            assert(out@ =~= base + digests_of(transactions@.take(i + 1)).flatten());
        }
        i = i + 1;
    }
    proof {
        assert(transactions@.take(transactions@.len() as int) =~= transactions@);
    }
    push_i64_be(&mut out, time.secs);
    push_u32_be(&mut out, time.nanos);
    push_u128_be(&mut out, nonce);
    out
}

/// Computes the hash of one sealing attempt: the SHA-512 digest of the
/// attempt's preimage. A pure function of its arguments — replaying it for
/// the same index, predecessor hash, batch, time and nonce always yields the
/// same 64 bytes.
pub fn attempt_hash(
    index: usize,
    prev_hash: &[u8; 64],
    transactions: &Vec<Transaction>,
    time: Timestamp,
    nonce: u128,
) -> (r: [u8; 64])
    ensures
        r@ == attempt_digest(index, prev_hash@, digests_of(transactions@), time, nonce),
{
    let input = attempt_input(index, prev_hash, transactions, time, nonce);
    sha512(&input)
}

impl Block {
    /// Seals a block at an injected creation instant: tries nonces in order
    /// from zero and returns the first qualifying block. Returns `None` only
    /// if every nonce in the space fails — the finite image of the unbounded
    /// search running forever.
    #[verifier::loop_isolation(false)]
    pub fn seal(
        index: usize,
        prev_hash: [u8; 64],
        transactions: Vec<Transaction>,
        time: Timestamp,
    ) -> (r: Option<Block>)
        ensures
            match r {
                Some(b) => sealed_from(
                    b@,
                    index,
                    prev_hash@,
                    digests_of(transactions@),
                    time,
                ),
                None => space_exhausted(index, prev_hash@, digests_of(transactions@), time),
            },
    {
        let mut nonce: u128 = 0;
        loop
            invariant
                forall|m: u128|
                    m < nonce ==> !pow_ok(
                        #[trigger] attempt_digest(
                            index,
                            prev_hash@,
                            digests_of(transactions@),
                            time,
                            m,
                        ),
                    ),
            decreases u128::MAX - nonce,
        {
            let h = attempt_hash(index, &prev_hash, &transactions, time, nonce);
            if h[0] == MARKER && h[1] == MARKER {
                let b = Block { index, prev_hash, transactions, nonce, time, hash: h };
                return Some(b);
            }
            if nonce == u128::MAX {
                proof {
                    assert forall|m: u128| !pow_ok(
                        #[trigger] attempt_digest(
                            index,
                            prev_hash@,
                            digests_of(transactions@),
                            time,
                            m,
                        ),
                    ) by {
                        if m < u128::MAX {
                        } else {
                            assert(m == nonce);
                        }
                    }
                }
                return None;
            }
            nonce = nonce + 1;
        }
    }

    /// Generates a new block: captures the current UTC instant once, then
    /// seals at that instant. Which instant the clock hands back is not
    /// promised; whatever it was, the returned block was sealed from it.
    pub fn new(index: usize, prev_hash: [u8; 64], transactions: Vec<Transaction>) -> (r: Option<
        Block,
    >)
        ensures
            match r {
                Some(b) => sealed_from(
                    b@,
                    index,
                    prev_hash@,
                    digests_of(transactions@),
                    b@.time,
                ),
                None => exists|t: Timestamp| #[trigger] space_exhausted(
                    index,
                    prev_hash@,
                    digests_of(transactions@),
                    t,
                ),
            },
    {
        let time = utc_now();
        Block::seal(index, prev_hash, transactions, time)
    }

    /// The genesis convenience path: seals index 0 over the all-zero sentinel
    /// predecessor hash and an empty transaction batch, at the current instant.
    pub fn genesis() -> (r: Option<Block>)
        ensures
            match r {
                Some(b) => sealed_from(b@, 0, zero_hash(), Seq::empty(), b@.time),
                None => exists|t: Timestamp| #[trigger] space_exhausted(
                    0,
                    zero_hash(),
                    Seq::empty(),
                    t,
                ),
            },
    {
        let zero: [u8; 64] = [0; 64];
        proof {
            assert(zero@ =~= zero_hash());
            assert(digests_of(Seq::<Transaction>::empty()) =~= Seq::<Seq<u8>>::empty());
        }
        Block::new(0, zero, Vec::new())
    }

    /// The block's qualifying hash.
    pub fn hash(&self) -> (r: [u8; 64])
        ensures
            r@ == self@.hash,
    {
        self.hash
    }

    /// The block's ordinal position in the chain.
    pub fn index(&self) -> (r: usize)
        ensures
            r == self@.index,
    {
        self.index
    }

    /// The nonce the proof-of-work search accepted: exactly the number of
    /// failed attempts that came before the accepted one.
    pub fn nonce(&self) -> (r: u128)
        ensures
            r == self@.nonce,
    {
        self.nonce
    }

    /// The instant the block was created at.
    pub fn time(&self) -> (r: Timestamp)
        ensures
            r == self@.time,
    {
        self.time
    }
}

} // verus!
