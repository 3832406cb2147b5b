//! The transaction as the block sealer sees it.
//!
//! The sealer never inspects a transaction's fields: all it consumes is the
//! fixed-length digest of the transaction's content, produced once by the
//! surrounding system. A transaction value here is therefore exactly that
//! digest, and its mathematical view is the digest's byte sequence.

use vstd::prelude::*;

verus! {

/// One transaction of a block: the 64-byte digest of its content.
#[derive(Clone)]
pub struct Transaction {
    digest: [u8; 64],
}

impl View for Transaction {
    type V = Seq<u8>;

    closed spec fn view(&self) -> Seq<u8> {
        self.digest@
    }
}

impl Transaction {
    /// Wraps a content digest handed in by the surrounding system.
    pub fn new(digest: [u8; 64]) -> (t: Self)
        ensures
            t@ == digest@,
    {
        Transaction { digest }
    }

    /// The digest of the transaction's content.
    pub fn hash(&self) -> (r: [u8; 64])
        ensures
            r@ == self@,
    {
        self.digest
    }
}

/// A transaction's view is always exactly 64 bytes long.
pub proof fn lemma_transaction_digest_len(t: Transaction)
    ensures
        t@.len() == 64,
{
}

} // verus!
