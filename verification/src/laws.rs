//! The engine's guarantees, stated on their own: head advancement, reply
//! ordering, transaction inclusion, and inherent idempotence. Atomic
//! abort needs no lemma here — it is an `ensures` of
//! [`crate::engine::AuthorshipEngine::process`]: a failed command leaves
//! the engine and the pool bit-for-bit unchanged.

use vstd::prelude::*;
use crate::ids::spec_block_hash;
use crate::import::Backend;
use crate::node::{lemma_ok_count_mono, spec_ok_count};
use crate::pool::spec_ready_count;
use crate::providers::TestClockInherents;
use crate::types::{ChainHead, InherentData, SealError, Transaction};

verus! {

/// Monotonic head advancement: in a well-formed chain — and processing
/// keeps every chain well formed — the head's height equals the number of
/// accepted seal commands, block `i` carries height `i + 1`, and each
/// block's parent is exactly the head it was accepted under: the genesis
/// hash under the first, the previous block's hash under every other.
pub proof fn lemma_monotonic_head_advancement(b: Backend)
    requires
        b.wf(),
    ensures
        b.head.number == b.blocks@.len(),
        forall|i: int| 0 <= i < b.blocks@.len() ==> (#[trigger] b.blocks@[i]).body.number == i + 1,
        b.blocks@.len() > 0 ==> b.blocks@[0].body.parent_hash == b.genesis_hash,
        forall|i: int|
            1 <= i < b.blocks@.len() ==> (#[trigger] b.blocks@[i]).body.parent_hash
                == spec_block_hash(b.blocks@[i - 1]),
{
}

/// FIFO fairness: among the replies of one engine run, an earlier
/// accepted command owns an earlier slot in the chain than a later
/// accepted one — `run_queued` and `seal_blocks` place the block of reply
/// `i` at offset `spec_ok_count(r, i)` after the old chain tip, and that
/// offset is strictly smaller for the earlier command.
pub proof fn lemma_fifo_fairness(r: Seq<Result<u64, SealError>>, i: int, j: int)
    requires
        0 <= i < j < r.len(),
        r[i] is Ok,
        r[j] is Ok,
    ensures
        spec_ok_count(r, i) < spec_ok_count(r, j),
{
    assert(spec_ok_count(r, i + 1) == spec_ok_count(r, i) + 1);
    lemma_ok_count_mono(r, i + 1, j);
}

/// Transaction inclusion: a pending transaction standing within the
/// command's transaction-count limit is part of the ready view the
/// accepted command turns into a block — `process` ensures the produced
/// block's transaction set is exactly that ready prefix.
pub proof fn lemma_transaction_inclusion(pool: Seq<Transaction>, limit: Option<usize>, i: int)
    requires
        0 <= i < pool.len(),
        i < spec_ready_count(pool.len() as int, limit),
    ensures
        pool.subrange(0, spec_ready_count(pool.len() as int, limit)).contains(pool[i]),
{
    let k = spec_ready_count(pool.len() as int, limit);
    assert(pool.subrange(0, k)[i] == pool[i]);
}

/// Idempotent inherents: the inherent-data provider's contract is a
/// function of the clock, the parent and the context alone, so any two
/// results it allows for identical arguments are identical — in
/// particular their timestamps agree.
pub proof fn lemma_idempotent_inherents(
    clock: TestClockInherents,
    parent: ChainHead,
    context: Option<u64>,
    r1: Result<InherentData, SealError>,
    r2: Result<InherentData, SealError>,
)
    requires
        r1 is Ok <==> !clock.spec_timestamp_overflows(parent),
        r1 is Ok ==> r1->Ok_0 == clock.spec_inherents(parent, context),
        r2 is Ok <==> !clock.spec_timestamp_overflows(parent),
        r2 is Ok ==> r2->Ok_0 == clock.spec_inherents(parent, context),
    ensures
        r1 is Ok <==> r2 is Ok,
        r1 is Ok ==> r1->Ok_0 == r2->Ok_0,
{
}

} // verus!
