//! The transaction pool: submitted, not-yet-included transactions, exposing
//! a priority-ordered ready view.
//!
//! The pool is a bounded list kept sorted by priority, descending, stable
//! for equal priorities (first submitted stands first). The engine takes
//! the ready prefix when it commits a block; a failed command takes
//! nothing.

use vstd::prelude::*;
use crate::ids::{spec_transaction_id, transaction_id};
use crate::types::{PoolError, Transaction};

verus! {

/// Whether `txs` is ordered by priority, descending.
pub open spec fn spec_ready_order(txs: Seq<Transaction>) -> bool {
    forall|i: int, j: int|
        0 <= i < j < txs.len()
            ==> (#[trigger] txs[i]).priority >= (#[trigger] txs[j]).priority
}

/// Whether `txs` holds pairwise-distinct transaction identifiers.
pub open spec fn spec_distinct_ids(txs: Seq<Transaction>) -> bool {
    forall|i: int, j: int|
        0 <= i < txs.len() && 0 <= j < txs.len() && i != j
            ==> spec_transaction_id(#[trigger] txs[i]) != spec_transaction_id(#[trigger] txs[j])
}

/// Whether some pending transaction has the identifier `id`.
pub open spec fn spec_contains_id(txs: Seq<Transaction>, id: u64) -> bool {
    exists|i: int| 0 <= i < txs.len() && spec_transaction_id(#[trigger] txs[i]) == id
}

/// Whether a submission is malformed; the pool rejects such a transaction
/// outright. The one validity rule of this harness: a call must carry a
/// non-empty payload.
pub open spec fn spec_invalid(t: Transaction) -> bool {
    t.call.payload().len() == 0
}

/// How many transactions a ready snapshot bounded by `limit` takes from a
/// pool of `len` pending ones: the whole pool, or the limit if smaller.
pub open spec fn spec_ready_count(len: int, limit: Option<usize>) -> int {
    match limit {
        Option::Some(l) => if l as int <= len { l as int } else { len },
        Option::None => len,
    }
}

/// A bounded pool of pending transactions in ready order.
#[derive(Debug)]
pub struct TransactionPool {
    /// The pending transactions, sorted by priority, descending.
    pub txs: Vec<Transaction>,
    /// Upper bound on the number of pending transactions.
    pub capacity: usize,
}

impl TransactionPool {
    /// Whether the pool is well formed: ready order, distinct identifiers,
    /// and within capacity.
    pub open spec fn wf(self) -> bool {
        &&& spec_ready_order(self.txs@)
        &&& spec_distinct_ids(self.txs@)
        &&& self.txs@.len() <= self.capacity
    }

    /// An empty pool holding at most `capacity` transactions.
    pub fn new(capacity: usize) -> (p: TransactionPool)
        ensures
            p.wf(),
            p.txs@ =~= Seq::<Transaction>::empty(),
            p.capacity == capacity,
    {
        TransactionPool { txs: Vec::new(), capacity }
    }

    /// The number of pending transactions.
    pub fn pending_count(&self) -> (n: usize)
        ensures
            n == self.txs@.len(),
    {
        self.txs.len()
    }

    /// Whether a transaction with identifier `id` is pending.
    pub fn contains(&self, id: u64) -> (r: bool)
        ensures
            r == spec_contains_id(self.txs@, id),
    {
        let mut i: usize = 0;
        while i < self.txs.len()
            invariant
                i <= self.txs@.len(),
                forall|j: int|
                    0 <= j < i ==> spec_transaction_id(#[trigger] self.txs@[j]) != id,
            decreases self.txs@.len() - i,
        {
            if transaction_id(&self.txs[i]) == id {
                return true;
            }
            i = i + 1;
        }
        false
    }

    /// Admits a transaction, keeping ready order, and returns its
    /// identifier. Rejects a malformed transaction, then a duplicate of a
    /// pending one, then any submission to a full pool; a rejection leaves
    /// the pool's other contents untouched.
    #[verifier::rlimit(60)]
    pub fn submit(&mut self, t: Transaction) -> (r: Result<u64, PoolError>)
        requires
            old(self).wf(),
        ensures
            final(self).wf(),
            final(self).capacity == old(self).capacity,
            r == Err::<u64, PoolError>(PoolError::Rejected) <==> spec_invalid(t),
            r == Err::<u64, PoolError>(PoolError::Duplicate) <==> !spec_invalid(t)
                && spec_contains_id(old(self).txs@, spec_transaction_id(t)),
            r == Err::<u64, PoolError>(PoolError::Underpriced) <==> !spec_invalid(t)
                && !spec_contains_id(old(self).txs@, spec_transaction_id(t))
                && old(self).txs@.len() == old(self).capacity,
            r is Err ==> final(self).txs@ == old(self).txs@,
            r is Ok ==> r->Ok_0 == spec_transaction_id(t)
                && exists|k: int|
                    0 <= k <= old(self).txs@.len()
                    && #[trigger] final(self).txs@ == old(self).txs@.insert(k, t)
                    && (forall|j: int|
                        0 <= j < k ==> (#[trigger] old(self).txs@[j]).priority >= t.priority)
                    && (k == old(self).txs@.len()
                        || old(self).txs@[k].priority < t.priority),
    {
        let invalid = match &t.call {
            crate::types::RuntimeCall::Remark(data) => data.len() == 0,
        };
        if invalid {
            return Err(PoolError::Rejected);
        }
        let id = transaction_id(&t);
        if self.contains(id) {
            return Err(PoolError::Duplicate);
        }
        if self.txs.len() == self.capacity {
            return Err(PoolError::Underpriced);
        }
        let mut k: usize = 0;
        while k < self.txs.len() && self.txs[k].priority >= t.priority
            invariant
                k <= self.txs@.len(),
                self.txs@ == old(self).txs@,
                forall|j: int|
                    0 <= j < k ==> (#[trigger] self.txs@[j]).priority >= t.priority,
            decreases self.txs@.len() - k,
        {
            k = k + 1;
        }
        self.txs.insert(k, t);
        proof {
            let s = old(self).txs@;
            let n = self.txs@;
            let ki = k as int;
            assert forall|i: int, j: int| 0 <= i < j < n.len()
                implies (#[trigger] n[i]).priority >= (#[trigger] n[j]).priority by {
                assert(spec_ready_order(s));
                if j < ki {
                    assert(n[i] == s[i] && n[j] == s[j]);
                } else if i < ki && j == ki {
                    assert(n[i] == s[i] && n[j] == t);
                } else if i < ki && j > ki {
                    assert(n[i] == s[i] && n[j] == s[j - 1]);
                } else if i == ki && j > ki {
                    assert(n[i] == t && n[j] == s[j - 1]);
                    assert(s[ki].priority < t.priority);
                    assert(s[j - 1].priority <= s[ki].priority);
                } else {
                    assert(n[i] == s[i - 1] && n[j] == s[j - 1]);
                }
            }
            assert forall|i: int, j: int|
                0 <= i < n.len() && 0 <= j < n.len() && i != j
                implies spec_transaction_id(#[trigger] n[i])
                    != spec_transaction_id(#[trigger] n[j]) by {
                assert(spec_distinct_ids(s));
                if i == ki {
                    assert(n[i] == t);
                    assert(spec_transaction_id(n[j]) != spec_transaction_id(t));
                } else if j == ki {
                    assert(n[j] == t);
                    assert(spec_transaction_id(n[i]) != spec_transaction_id(t));
                } else {
                    assert(n[i] == if i < ki { s[i] } else { s[i - 1] });
                    assert(n[j] == if j < ki { s[j] } else { s[j - 1] });
                }
            }
        }
        Ok(id)
    }

    /// Hands over the ready snapshot: the first `limit` pending
    /// transactions (all of them without a limit), in ready order,
    /// removing them from the pool. The engine calls this only once a
    /// command is certain to commit.
    pub fn take_ready(&mut self, limit: Option<usize>) -> (r: Vec<Transaction>)
        requires
            old(self).wf(),
        ensures
            final(self).wf(),
            final(self).capacity == old(self).capacity,
            r@ == old(self).txs@.subrange(0, spec_ready_count(old(self).txs@.len() as int, limit)),
            final(self).txs@ == old(self).txs@.subrange(
                spec_ready_count(old(self).txs@.len() as int, limit),
                old(self).txs@.len() as int,
            ),
    {
        let count: usize = match limit {
            Option::Some(l) => if l <= self.txs.len() { l } else { self.txs.len() },
            Option::None => self.txs.len(),
        };
        let mut taken: Vec<Transaction> = Vec::new();
        let mut j: usize = 0;
        while j < count
            invariant
                j <= count,
                count <= old(self).txs@.len(),
                count == spec_ready_count(old(self).txs@.len() as int, limit),
                self.capacity == old(self).capacity,
                taken@ == old(self).txs@.subrange(0, j as int),
                self.txs@ == old(self).txs@.subrange(j as int, old(self).txs@.len() as int),
            decreases count - j,
        {
            let t = self.txs.remove(0);
            taken.push(t);
            j = j + 1;
            proof {
                assert(taken@ =~= old(self).txs@.subrange(0, j as int));
                assert(self.txs@ =~= old(self).txs@.subrange(
                    j as int,
                    old(self).txs@.len() as int,
                ));
            }
        }
        proof {
            let s = old(self).txs@;
            let c = count as int;
            assert(self.txs@ == s.subrange(c, s.len() as int));
            assert forall|i: int, j2: int| 0 <= i < j2 < self.txs@.len()
                implies (#[trigger] self.txs@[i]).priority
                    >= (#[trigger] self.txs@[j2]).priority by {
                assert(spec_ready_order(s));
                assert(self.txs@[i] == s[c + i]);
                assert(self.txs@[j2] == s[c + j2]);
            }
            assert forall|i: int, j2: int|
                0 <= i < self.txs@.len() && 0 <= j2 < self.txs@.len() && i != j2
                implies spec_transaction_id(#[trigger] self.txs@[i])
                    != spec_transaction_id(#[trigger] self.txs@[j2]) by {
                assert(spec_distinct_ids(s));
                assert(self.txs@[i] == s[c + i]);
                assert(self.txs@[j2] == s[c + j2]);
            }
        }
        taken
    }
}

} // verus!
