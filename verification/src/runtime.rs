//! The simulated runtime: the state a block's transactions act on, the
//! executor that applies calls to it, and the signed-extension scheme a
//! submitted transaction carries.

use vstd::prelude::*;
use crate::ids::{spec_transaction_id, transaction_id};
use crate::types::Transaction;

verus! {

/// Version of the simulated runtime, reported by the executor.
pub const RUNTIME_SPEC_VERSION: u32 = 268;

/// Version of the transaction format the runtime accepts.
pub const RUNTIME_TX_VERSION: u32 = 1;

/// An event the runtime records when a call is applied.
#[derive(Clone, Copy, PartialEq, Eq, Debug)]
pub struct Event {
    /// Height of the block the call was applied in.
    pub block_number: u64,
    /// Account that signed the applied transaction.
    pub signer: u64,
    /// Identifier of the applied transaction.
    pub transaction_id: u64,
}

/// The runtime state as of the current chain head: the recorded events and
/// each account's transaction count.
#[derive(Debug)]
pub struct RuntimeState {
    /// Events recorded by applied calls, oldest first.
    pub events: Vec<Event>,
    /// Per-account transaction counts: `(account, nonce)` pairs with
    /// pairwise-distinct accounts.
    pub nonces: Vec<(u64, u64)>,
}

/// Whether a nonce table holds each account at most once.
pub open spec fn spec_nonces_wf(nonces: Seq<(u64, u64)>) -> bool {
    forall|i: int, j: int|
        0 <= i < nonces.len() && 0 <= j < nonces.len() && i != j
            ==> (#[trigger] nonces[i]).0 != (#[trigger] nonces[j]).0
}

/// The nonce recorded for `account`: its table entry, or zero for an
/// account the table does not hold.
pub open spec fn spec_nonce_of(nonces: Seq<(u64, u64)>, account: u64) -> u64 {
    if exists|i: int| 0 <= i < nonces.len() && (#[trigger] nonces[i]).0 == account {
        nonces[choose|i: int| 0 <= i < nonces.len() && (#[trigger] nonces[i]).0 == account].1
    } else {
        0
    }
}

/// A nonce after one more transaction; saturates at the largest
/// representable count.
pub open spec fn spec_bumped(n: u64) -> u64 {
    if n < u64::MAX {
        (n + 1) as u64
    } else {
        n
    }
}

/// The nonce table after `account` sent one more transaction.
pub open spec fn spec_bump(nonces: Seq<(u64, u64)>, account: u64) -> Seq<(u64, u64)> {
    if exists|i: int| 0 <= i < nonces.len() && (#[trigger] nonces[i]).0 == account {
        let i = choose|i: int| 0 <= i < nonces.len() && (#[trigger] nonces[i]).0 == account;
        nonces.update(i, (account, spec_bumped(nonces[i].1)))
    } else {
        nonces.push((account, 1))
    }
}

/// The event recorded when `t` is applied at height `number`.
pub open spec fn spec_event_of(t: Transaction, number: u64) -> Event {
    Event {
        block_number: number,
        signer: t.signer,
        transaction_id: spec_transaction_id(t),
    }
}

impl RuntimeState {
    /// Whether the state is well formed: the nonce table holds each
    /// account at most once.
    pub open spec fn wf(self) -> bool {
        spec_nonces_wf(self.nonces@)
    }

    /// An empty state: no events, no account has sent anything.
    pub fn genesis() -> (s: RuntimeState)
        ensures
            s.wf(),
            s.events@ =~= Seq::<Event>::empty(),
            s.nonces@ =~= Seq::<(u64, u64)>::empty(),
    {
        RuntimeState { events: Vec::new(), nonces: Vec::new() }
    }

    /// The number of transactions `account` has sent so far.
    pub fn account_nonce(&self, account: u64) -> (n: u64)
        requires
            self.wf(),
        ensures
            n == spec_nonce_of(self.nonces@, account),
    {
        let mut i: usize = 0;
        while i < self.nonces.len()
            invariant
                i <= self.nonces@.len(),
                forall|j: int| 0 <= j < i ==> (#[trigger] self.nonces@[j]).0 != account,
                spec_nonces_wf(self.nonces@),
            decreases self.nonces@.len() - i,
        {
            if self.nonces[i].0 == account {
                proof {
                    let w = choose|k: int|
                        0 <= k < self.nonces@.len() && (#[trigger] self.nonces@[k]).0 == account;
                    assert(self.nonces@[i as int].0 == account);
                    assert(w == i as int);
                }
                return self.nonces[i].1;
            }
            i = i + 1;
        }
        0
    }

    /// Records that `account` sent one more transaction.
    fn bump_nonce(&mut self, account: u64)
        requires
            old(self).wf(),
        ensures
            final(self).wf(),
            final(self).nonces@ == spec_bump(old(self).nonces@, account),
            final(self).events@ == old(self).events@,
    {
        let ghost orig = self.nonces@;
        let mut i: usize = 0;
        while i < self.nonces.len()
            invariant
                i <= self.nonces@.len(),
                self.nonces@ == orig,
                orig == old(self).nonces@,
                self.events@ == old(self).events@,
                forall|j: int| 0 <= j < i ==> (#[trigger] orig[j]).0 != account,
                spec_nonces_wf(orig),
            decreases self.nonces@.len() - i,
        {
            if self.nonces[i].0 == account {
                let bumped: u64 = if self.nonces[i].1 < u64::MAX {
                    self.nonces[i].1 + 1
                } else {
                    self.nonces[i].1
                };
                let _ = self.nonces.remove(i);
                self.nonces.insert(i, (account, bumped));
                proof {
                    let w = choose|k: int|
                        0 <= k < orig.len() && (#[trigger] orig[k]).0 == account;
                    assert(orig[i as int].0 == account);
                    assert(w == i as int);
                    assert(self.nonces@ =~= spec_bump(orig, account));
                    assert(orig == old(self).nonces@);
                    assert(self.nonces@ == spec_bump(old(self).nonces@, account));
                }
                return;
            }
            i = i + 1;
        }
        self.nonces.push((account, 1));
        proof {
            assert(forall|k: int|
                0 <= k < orig.len() ==> (#[trigger] orig[k]).0 != account);
            assert(self.nonces@ =~= spec_bump(orig, account));
        }
    }
}

/// The dispatcher feeding calls into the simulated runtime: it applies one
/// transaction's call to the state, recording the event and the sender's
/// nonce, and reports the runtime's native version.
pub struct ExecutorDispatch;

impl ExecutorDispatch {
    /// Applies one transaction at height `number`: records its event and
    /// counts it against its signer's nonce. Returns the index of the
    /// recorded event.
    pub fn dispatch(state: &mut RuntimeState, number: u64, t: &Transaction) -> (r: usize)
        requires
            old(state).wf(),
        ensures
            final(state).wf(),
            final(state).events@ == old(state).events@.push(spec_event_of(*t, number)),
            final(state).nonces@ == spec_bump(old(state).nonces@, t.signer),
            r == old(state).events@.len(),
    {
        let r = state.events.len();
        let id = transaction_id(t);
        state.events.push(Event { block_number: number, signer: t.signer, transaction_id: id });
        state.bump_nonce(t.signer);
        r
    }

    /// The version of the runtime this executor feeds calls into.
    pub fn native_version() -> (v: u32)
        ensures
            v == RUNTIME_SPEC_VERSION,
    {
        RUNTIME_SPEC_VERSION
    }
}

/// The events after the first `i` transactions of `txs` were applied at
/// height `number`, starting from `events`.
pub open spec fn spec_events_after(
    events: Seq<Event>,
    txs: Seq<Transaction>,
    number: u64,
    i: int,
) -> Seq<Event>
    decreases i,
{
    if i <= 0 {
        events
    } else {
        spec_events_after(events, txs, number, i - 1).push(spec_event_of(txs[i - 1], number))
    }
}

/// The nonce table after the first `i` transactions of `txs` were applied,
/// starting from `nonces`.
pub open spec fn spec_nonces_after(
    nonces: Seq<(u64, u64)>,
    txs: Seq<Transaction>,
    i: int,
) -> Seq<(u64, u64)>
    decreases i,
{
    if i <= 0 {
        nonces
    } else {
        spec_bump(spec_nonces_after(nonces, txs, i - 1), txs[i - 1].signer)
    }
}

/// Applies every transaction of an imported block, in block order, to the
/// runtime state.
pub fn apply_extrinsics(state: &mut RuntimeState, number: u64, txs: &Vec<Transaction>)
    requires
        old(state).wf(),
    ensures
        final(state).wf(),
        final(state).events@ == spec_events_after(
            old(state).events@,
            txs@,
            number,
            txs@.len() as int,
        ),
        final(state).nonces@ == spec_nonces_after(old(state).nonces@, txs@, txs@.len() as int),
{
    let mut i: usize = 0;
    while i < txs.len()
        invariant
            i <= txs@.len(),
            state.wf(),
            state.events@ == spec_events_after(old(state).events@, txs@, number, i as int),
            state.nonces@ == spec_nonces_after(old(state).nonces@, txs@, i as int),
        decreases txs@.len() - i,
    {
        let _ = ExecutorDispatch::dispatch(state, number, &txs[i]);
        i = i + 1;
    }
}

/// The lifetime a signed transaction claims for itself.
#[derive(Clone, Copy, PartialEq, Eq, Debug)]
pub enum Era {
    /// The transaction never expires.
    Immortal,
}

/// The signed extensions attached to every submitted transaction: the
/// checks and fee terms the runtime holds a signature to.
#[derive(Clone, Copy, PartialEq, Eq, Debug)]
pub struct SignedExtras {
    /// Runtime version the sender signed against.
    pub spec_version: u32,
    /// Transaction-format version the sender signed against.
    pub tx_version: u32,
    /// Whether the sender pinned the genesis hash.
    pub check_genesis: bool,
    /// Claimed lifetime of the transaction.
    pub era: Era,
    /// The sender's next expected nonce.
    pub nonce: u64,
    /// Whether block-weight accounting applies.
    pub check_weight: bool,
    /// Fee tip offered to the block author.
    pub tip: u64,
    /// Asset the tip is paid in, or `None` for the native one.
    pub tip_asset: Option<u64>,
}

/// The chain's signed-extension scheme: how a transaction from a given
/// account is expected to be decorated.
pub struct NodeTemplateChainInfo;

impl NodeTemplateChainInfo {
    /// The signed extensions for a fresh transaction from `from`: current
    /// runtime and transaction versions, genesis pinned, immortal era, the
    /// account's next nonce, weight checking, and a zero tip in the native
    /// asset.
    pub fn signed_extras(state: &RuntimeState, from: u64) -> (e: SignedExtras)
        requires
            state.wf(),
        ensures
            e == (SignedExtras {
                spec_version: RUNTIME_SPEC_VERSION,
                tx_version: RUNTIME_TX_VERSION,
                check_genesis: true,
                era: Era::Immortal,
                nonce: spec_nonce_of(state.nonces@, from),
                check_weight: true,
                tip: 0,
                tip_asset: None,
            }),
    {
        SignedExtras {
            spec_version: RUNTIME_SPEC_VERSION,
            tx_version: RUNTIME_TX_VERSION,
            check_genesis: true,
            era: Era::Immortal,
            nonce: state.account_nonce(from),
            check_weight: true,
            tip: 0,
            tip_asset: None,
        }
    }
}

} // verus!
