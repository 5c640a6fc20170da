//! The node facade: the one component external callers touch. It wraps
//! the authorship engine, the transaction pool and the command channel,
//! and exposes the seal, submit and query operations.

use vstd::prelude::*;
use crate::channel::CommandChannel;
use crate::engine::{spec_chain_of, AuthorshipEngine};
use crate::ids::{spec_block_hash, spec_transaction_id};
use crate::import::{Backend, BlockImportPipeline};
use crate::pool::{spec_contains_id, spec_invalid, TransactionPool};
use crate::providers::{FixedAuthoritySealer, TestClockInherents};
use crate::runtime::{spec_nonce_of, RuntimeState, NodeTemplateChainInfo};
use crate::types::{
    ChainHead, ChannelError, PoolError, RuntimeCall, SealCommand, SealError, Transaction,
};

verus! {

/// The account an unsigned submission is attributed to.
pub const DEFAULT_SIGNER: u64 = 0;

/// What a node is built from: the chain identity, the buffer bounds, and
/// the policies the embedding application picked.
#[derive(Clone, Copy, PartialEq, Eq, Debug)]
pub struct NodeConfig {
    /// Hash of the genesis block the chain starts from.
    pub genesis_hash: u64,
    /// Capacity of the command channel.
    pub channel_capacity: usize,
    /// Capacity of the transaction pool.
    pub pool_capacity: usize,
    /// Whether a seal command with no ready transactions still produces
    /// an empty block.
    pub allow_empty_blocks: bool,
    /// Cross-chain context for the inherent-data provider, if the chain
    /// runs as a parachain.
    pub parachain_context: Option<u64>,
}

/// A running node: the authorship engine (the chain's single writer), the
/// transaction pool, and the command channel feeding the engine.
#[derive(Debug)]
pub struct Node {
    /// The authorship engine and everything it owns.
    pub engine: AuthorshipEngine,
    /// The pool of pending transactions.
    pub pool: TransactionPool,
    /// The buffered queue of seal commands.
    pub channel: CommandChannel,
}

/// Whether `b` keeps the construction-time configuration of `a`: the
/// provider handles are injected once and swapped never.
pub open spec fn spec_same_setup(a: Node, b: Node) -> bool {
    &&& b.engine.sealer.authorities@ == a.engine.sealer.authorities@
    &&& b.engine.inherents == a.engine.inherents
    &&& b.engine.pipeline.authorities@ == a.engine.pipeline.authorities@
    &&& b.engine.pipeline.verify_seal == a.engine.pipeline.verify_seal
    &&& b.engine.pipeline.track_finality == a.engine.pipeline.track_finality
    &&& b.engine.allow_empty_blocks == a.engine.allow_empty_blocks
    &&& b.engine.parachain_context == a.engine.parachain_context
    &&& b.engine.backend.genesis_hash == a.engine.backend.genesis_hash
    &&& b.pool.capacity == a.pool.capacity
    &&& b.channel.capacity == a.channel.capacity
}

/// The transaction a submission builds: the call, decorated with the
/// chain's signed extensions for the given origin (the default account
/// when none is given).
pub open spec fn spec_submitted_tx(n: Node, call: RuntimeCall, origin: Option<u64>) -> Transaction {
    let signer = (match origin {
        Option::Some(a) => a,
        Option::None => DEFAULT_SIGNER,
    });
    Transaction {
        signer,
        nonce: spec_nonce_of(n.engine.state.nonces@, signer),
        priority: 0,
        call,
    }
}

/// The command sequence `seal_blocks(count)` issues: `count` plain
/// commands, each building on the current head with no transaction
/// limit.
pub open spec fn spec_on_head_cmds(count: int) -> Seq<SealCommand> {
    Seq::new(
        count as nat,
        |j: int| (SealCommand { parent: Option::None, max_transactions: Option::None }),
    )
}

/// Number of accepted replies among the first `i` of `r`.
pub open spec fn spec_ok_count(r: Seq<Result<u64, SealError>>, i: int) -> int
    decreases i,
{
    if i <= 0 {
        0
    } else {
        spec_ok_count(r, i - 1) + (if r[i - 1] is Ok {
            1int
        } else {
            0int
        })
    }
}

/// Appending replies does not change the count over an untouched prefix.
pub proof fn lemma_ok_count_push(r: Seq<Result<u64, SealError>>, x: Result<u64, SealError>, i: int)
    requires
        i <= r.len(),
    ensures
        spec_ok_count(r.push(x), i) == spec_ok_count(r, i),
    decreases i,
{
    if i > 0 {
        lemma_ok_count_push(r, x, i - 1);
        assert(r.push(x)[i - 1] == r[i - 1]);
    }
}

/// The accepted count grows with the prefix, by at most one per reply.
pub proof fn lemma_ok_count_mono(r: Seq<Result<u64, SealError>>, a: int, b: int)
    requires
        0 <= a <= b,
    ensures
        spec_ok_count(r, a) <= spec_ok_count(r, b) <= spec_ok_count(r, a) + (b - a),
    decreases b - a,
{
    if a < b {
        lemma_ok_count_mono(r, a, b - 1);
    }
}

/// Assembles a ready node from a configuration and the already-built
/// providers: the block-import pipeline, the consensus metadata provider
/// and the inherent-data provider. A misconfigured provider or an
/// unusable configuration is fatal: construction aborts before any
/// command is accepted.
pub fn build_node_subsystems(
    config: NodeConfig,
    pipeline: BlockImportPipeline,
    sealer: FixedAuthoritySealer,
    inherents: TestClockInherents,
) -> (r: Result<Node, crate::types::StartupError>)
    ensures
        r is Ok <==> config.channel_capacity > 0 && sealer.authorities@.len() > 0,
        r is Err ==> r->Err_0 == (if config.channel_capacity == 0 {
            crate::types::StartupError::BadConfiguration
        } else {
            crate::types::StartupError::MissingAuthorities
        }),
        r is Ok ==> ({
            let n = r->Ok_0;
            &&& n.wf()
            &&& n.engine.backend.genesis_hash == config.genesis_hash
            &&& n.engine.backend.head == (ChainHead { hash: config.genesis_hash, number: 0 })
            &&& n.engine.backend.blocks@.len() == 0
            &&& n.engine.backend.finalized_number == 0
            &&& n.engine.state.events@.len() == 0
            &&& n.engine.state.nonces@.len() == 0
            &&& n.engine.sealer.authorities@ == sealer.authorities@
            &&& n.engine.inherents == inherents
            &&& n.engine.pipeline.authorities@ == pipeline.authorities@
            &&& n.engine.pipeline.verify_seal == pipeline.verify_seal
            &&& n.engine.pipeline.track_finality == pipeline.track_finality
            &&& n.engine.allow_empty_blocks == config.allow_empty_blocks
            &&& n.engine.parachain_context == config.parachain_context
            &&& n.pool.txs@.len() == 0
            &&& n.pool.capacity == config.pool_capacity
            &&& n.channel.queue@.len() == 0
            &&& n.channel.capacity == config.channel_capacity
            &&& !n.channel.closed
        }),
{
    if config.channel_capacity == 0 {
        return Err(crate::types::StartupError::BadConfiguration);
    }
    if sealer.authorities.len() == 0 {
        return Err(crate::types::StartupError::MissingAuthorities);
    }
    let engine = AuthorshipEngine {
        backend: Backend::new(config.genesis_hash),
        state: RuntimeState::genesis(),
        sealer,
        inherents,
        pipeline,
        allow_empty_blocks: config.allow_empty_blocks,
        parachain_context: config.parachain_context,
    };
    Ok(Node {
        engine,
        pool: TransactionPool::new(config.pool_capacity),
        channel: CommandChannel::new(config.channel_capacity),
    })
}

impl Node {
    /// Whether every subsystem of the node is well formed.
    pub open spec fn wf(self) -> bool {
        &&& self.engine.wf()
        &&& self.pool.wf()
        &&& self.channel.wf()
    }

    /// The current best block pointer, as status queries see it: only
    /// values that correspond to a completed, successfully imported
    /// block.
    pub fn status(&self) -> (h: ChainHead)
        ensures
            h == self.engine.backend.head,
    {
        self.engine.backend.info()
    }

    /// Read-only access to the runtime state as of the current head, for
    /// state queries; no side effect on chain data.
    pub fn with_state(&self) -> (s: &RuntimeState)
        ensures
            *s == self.engine.state,
    {
        &self.engine.state
    }

    /// Read-only access to the underlying chain store, for diagnostics.
    pub fn client(&self) -> (b: &Backend)
        ensures
            *b == self.engine.backend,
    {
        &self.engine.backend
    }

    /// Forwards a transaction to the pool: the call is decorated with the
    /// chain's signed extensions for `origin` (the default account when
    /// none is given) and admitted under the pool's rules. Returns the
    /// transaction's identifier, or the pool's typed rejection, which
    /// leaves the pool's other contents untouched.
    pub fn submit_extrinsic(&mut self, call: RuntimeCall, origin: Option<u64>) -> (r: Result<
        u64,
        PoolError,
    >)
        requires
            old(self).wf(),
        ensures
            final(self).wf(),
            final(self).engine == old(self).engine,
            final(self).channel == old(self).channel,
            spec_same_setup(*old(self), *final(self)),
            r == Err::<u64, PoolError>(PoolError::Rejected) <==> spec_invalid(
                spec_submitted_tx(*old(self), call, origin),
            ),
            r == Err::<u64, PoolError>(PoolError::Duplicate) <==> !spec_invalid(
                spec_submitted_tx(*old(self), call, origin),
            ) && spec_contains_id(
                old(self).pool.txs@,
                spec_transaction_id(spec_submitted_tx(*old(self), call, origin)),
            ),
            r == Err::<u64, PoolError>(PoolError::Underpriced) <==> !spec_invalid(
                spec_submitted_tx(*old(self), call, origin),
            ) && !spec_contains_id(
                old(self).pool.txs@,
                spec_transaction_id(spec_submitted_tx(*old(self), call, origin)),
            ) && old(self).pool.txs@.len() == old(self).pool.capacity,
            r is Err ==> final(self).pool.txs@ == old(self).pool.txs@,
            r is Ok ==> r->Ok_0 == spec_transaction_id(
                spec_submitted_tx(*old(self), call, origin),
            ),
            r is Ok ==> exists|k: int|
                0 <= k <= old(self).pool.txs@.len() && #[trigger] final(self).pool.txs@ == old(
                    self,
                ).pool.txs@.insert(k, spec_submitted_tx(*old(self), call, origin)),
    {
        let signer = match origin {
            Option::Some(a) => a,
            Option::None => DEFAULT_SIGNER,
        };
        let extras = NodeTemplateChainInfo::signed_extras(&self.engine.state, signer);
        let t = Transaction { signer, nonce: extras.nonce, priority: extras.tip, call };
        let ghost gt = t;
        proof {
            assert(gt == spec_submitted_tx(*old(self), call, origin));
        }
        let r = self.pool.submit(t);
        proof {
            if r is Ok {
                let k = choose|k: int|
                    0 <= k <= old(self).pool.txs@.len() && #[trigger] self.pool.txs@ == old(
                        self,
                    ).pool.txs@.insert(k, gt) && (forall|j: int|
                        0 <= j < k ==> (#[trigger] old(self).pool.txs@[j]).priority
                            >= gt.priority) && (k == old(self).pool.txs@.len()
                        || old(self).pool.txs@[k].priority < gt.priority);
                assert(self.pool.txs@ == old(self).pool.txs@.insert(k, gt));
            }
        }
        r
    }

    /// Marks a block final by its hash, raising the chain's finalized
    /// height to that block's if it is not final yet. Returns the block's
    /// height, or nothing for a hash the chain does not hold; nothing
    /// else of the node changes either way.
    pub fn finalize(&mut self, hash: u64) -> (r: Option<u64>)
        requires
            old(self).wf(),
        ensures
            final(self).wf(),
            spec_same_setup(*old(self), *final(self)),
            final(self).pool == old(self).pool,
            final(self).channel == old(self).channel,
            final(self).engine.backend.blocks@ == old(self).engine.backend.blocks@,
            final(self).engine.backend.head == old(self).engine.backend.head,
            final(self).engine.state == old(self).engine.state,
            r is Some <==> old(self).engine.backend.spec_lookup(hash) is Some,
            r is Some ==> r->Some_0 == old(self).engine.backend.spec_lookup(
                hash,
            )->Some_0.number && final(self).engine.backend.finalized_number == (
            if r->Some_0 > old(self).engine.backend.finalized_number {
                r->Some_0
            } else {
                old(self).engine.backend.finalized_number
            }),
            r is None ==> *final(self) == *old(self),
    {
        let found = self.engine.backend.lookup(hash);
        proof {
            self.engine.backend.lemma_lookup_bounds(hash);
        }
        match found {
            Option::Some(p) => {
                if p.number > self.engine.backend.finalized_number {
                    self.engine.backend.finalized_number = p.number;
                }
                Some(p.number)
            },
            Option::None => None,
        }
    }

    /// Hands a seal command to the engine's channel, for external
    /// producers; the engine consumes commands strictly in arrival order.
    pub fn enqueue_command(&mut self, cmd: SealCommand) -> (r: Result<(), ChannelError>)
        requires
            old(self).wf(),
        ensures
            final(self).wf(),
            final(self).engine == old(self).engine,
            final(self).pool == old(self).pool,
            spec_same_setup(*old(self), *final(self)),
            final(self).channel.closed == old(self).channel.closed,
            r == Err::<(), ChannelError>(ChannelError::Closed) <==> old(self).channel.closed,
            r == Err::<(), ChannelError>(ChannelError::Full) <==> !old(self).channel.closed
                && old(self).channel.queue@.len() == old(self).channel.capacity,
            r is Ok ==> final(self).channel.queue@ == old(self).channel.queue@.push(cmd),
            r is Err ==> final(self).channel.queue@ == old(self).channel.queue@,
    {
        self.channel.enqueue(cmd)
    }

    /// Runs the engine loop over everything queued: consumes the commands
    /// strictly in arrival order, processes each to its commit or abort,
    /// and delivers exactly one reply per command, in the same order.
    /// The replies and the resulting chain pointers, head and pool are
    /// exactly the fold of the engine step over the queued commands —
    /// whether each command commits or aborts, and with what, is fixed,
    /// not merely bounded. Accepted commands advance the head by one
    /// block each, and their blocks stand in the chain in command order.
    #[verifier::rlimit(100)]
    pub fn run_queued(&mut self) -> (r: Vec<Result<u64, SealError>>)
        requires
            old(self).wf(),
            old(self).engine.backend.head.number + old(self).channel.queue@.len()
                <= u64::MAX,
        ensures
            final(self).wf(),
            spec_same_setup(*old(self), *final(self)),
            r@.len() == old(self).channel.queue@.len(),
            final(self).channel.queue@.len() == 0,
            final(self).channel.closed == old(self).channel.closed,
            final(self).engine.backend.head.number == old(self).engine.backend.head.number
                + spec_ok_count(r@, r@.len() as int),
            final(self).engine.backend.blocks@.len() == old(self).engine.backend.blocks@.len()
                + spec_ok_count(r@, r@.len() as int),
            final(self).engine.backend.blocks@.subrange(
                0,
                old(self).engine.backend.blocks@.len() as int,
            ) == old(self).engine.backend.blocks@,
            forall|i: int|
                0 <= i < r@.len() && (#[trigger] r@[i]) is Ok ==> r@[i]->Ok_0 == spec_block_hash(
                    final(self).engine.backend.blocks@[
                        old(self).engine.backend.blocks@.len() + spec_ok_count(r@, i)
                    ],
                ),
            ({
                let run = old(self).engine.spec_engine_run(
                    spec_chain_of(old(self).engine.backend.blocks@),
                    old(self).engine.backend.head,
                    old(self).pool.txs@,
                    old(self).channel.queue@,
                    old(self).channel.queue@.len() as int,
                );
                &&& spec_chain_of(final(self).engine.backend.blocks@) == run.0
                &&& final(self).engine.backend.head == run.1
                &&& final(self).pool.txs@ == run.2
                &&& r@ == run.3
            }),
    {
        let ghost n0 = self.engine.backend.blocks@.len() as int;
        let ghost h0 = self.engine.backend.head.number;
        let ghost chain0 = spec_chain_of(self.engine.backend.blocks@);
        let ghost head0 = self.engine.backend.head;
        let ghost pool0 = self.pool.txs@;
        let ghost cmds = self.channel.queue@;
        let total = self.channel.queued_count();
        let mut replies: Vec<Result<u64, SealError>> = Vec::new();
        let mut i: usize = 0;
        while i < total
            invariant
                i <= total,
                total == old(self).channel.queue@.len(),
                replies@.len() == i,
                self.wf(),
                spec_same_setup(*old(self), *self),
                n0 == old(self).engine.backend.blocks@.len() as int,
                h0 == old(self).engine.backend.head.number,
                self.channel.queue@ == old(self).channel.queue@.subrange(
                    i as int,
                    total as int,
                ),
                self.channel.closed == old(self).channel.closed,
                self.engine.backend.head.number == h0 + spec_ok_count(replies@, i as int),
                self.engine.backend.blocks@.len() == n0 + spec_ok_count(replies@, i as int),
                self.engine.backend.blocks@.subrange(0, n0) == old(
                    self,
                ).engine.backend.blocks@,
                h0 + total <= u64::MAX,
                forall|j: int|
                    0 <= j < i && (#[trigger] replies@[j]) is Ok ==> replies@[j]->Ok_0
                        == spec_block_hash(
                        self.engine.backend.blocks@[n0 + spec_ok_count(replies@, j)],
                    ),
                chain0 == spec_chain_of(old(self).engine.backend.blocks@),
                head0 == old(self).engine.backend.head,
                pool0 == old(self).pool.txs@,
                cmds == old(self).channel.queue@,
                ({
                    let run = old(self).engine.spec_engine_run(chain0, head0, pool0, cmds, i as int);
                    &&& spec_chain_of(self.engine.backend.blocks@) == run.0
                    &&& self.engine.backend.head == run.1
                    &&& self.pool.txs@ == run.2
                    &&& replies@ == run.3
                }),
            decreases total - i,
        {
            proof {
                lemma_ok_count_mono(replies@, 0, i as int);
            }
            let cmd = match self.channel.dequeue() {
                Option::Some(c) => c,
                Option::None => {
                    proof {
                        assert(false);
                    }
                    SealCommand { parent: None, max_transactions: None }
                },
            };
            let ghost pre = *self;
            let ghost pre_replies = replies@;
            let res = self.engine.process(&mut self.pool, &cmd);
            replies.push(res);
            i = i + 1;
            proof {
                lemma_ok_count_push(pre_replies, res, i as int - 1);
                assert(spec_ok_count(replies@, i as int) == spec_ok_count(
                    pre_replies,
                    i as int - 1,
                ) + (if res is Ok {
                    1int
                } else {
                    0int
                }));
                assert(self.channel.queue@ =~= old(self).channel.queue@.subrange(
                    i as int,
                    total as int,
                ));
                if res is Ok {
                    assert(self.engine.backend.blocks@.subrange(0, n0) =~= old(
                        self,
                    ).engine.backend.blocks@);
                }
                assert forall|j: int|
                    0 <= j < i && (#[trigger] replies@[j]) is Ok implies replies@[j]->Ok_0
                        == spec_block_hash(
                        self.engine.backend.blocks@[n0 + spec_ok_count(replies@, j)],
                    ) by {
                    lemma_ok_count_push(pre_replies, res, j);
                    if j < i - 1 {
                        lemma_ok_count_push(pre_replies, res, j + 1);
                        assert(replies@[j] == pre_replies[j]);
                        lemma_ok_count_mono(pre_replies, 0, j);
                        lemma_ok_count_mono(pre_replies, j + 1, i as int - 1);
                        assert(n0 + spec_ok_count(replies@, j) < pre.engine.backend.blocks@.len());
                        if res is Ok {
                            let idx = n0 + spec_ok_count(replies@, j);
                            let plen = pre.engine.backend.blocks@.len() as int;
                            assert(self.engine.backend.blocks@.subrange(0, plen)
                                == pre.engine.backend.blocks@);
                            assert(self.engine.backend.blocks@.subrange(0, plen)[idx]
                                == self.engine.backend.blocks@[idx]);
                            assert(self.engine.backend.blocks@[idx]
                                == pre.engine.backend.blocks@[idx]);
                        }
                    } else {
                        assert(replies@[j] == res);
                        if res is Ok {
                            assert(spec_ok_count(replies@, j) == spec_ok_count(pre_replies, j));
                            assert(self.engine.backend.blocks@.len() == n0 + spec_ok_count(
                                replies@,
                                j,
                            ) + 1);
                            assert(self.engine.backend.blocks@[n0 + spec_ok_count(replies@, j)]
                                == self.engine.backend.blocks@.last());
                        }
                    }
                }
                let iprev = i as int - 1;
                let prevrun = old(self).engine.spec_engine_run(chain0, head0, pool0, cmds, iprev);
                assert(cmds.subrange(iprev, total as int)[0] == cmds[iprev]);
                assert(cmd == cmds[iprev]);
                assert(spec_chain_of(pre.engine.backend.blocks@) == prevrun.0);
                assert(pre.engine.backend.head == prevrun.1);
                assert(pre.pool.txs@ == prevrun.2);
                assert(pre_replies == prevrun.3);
                AuthorshipEngine::lemma_step_reads_setup(
                    pre.engine,
                    old(self).engine,
                    prevrun.0,
                    prevrun.1,
                    prevrun.2,
                    cmd,
                );
                let st = old(self).engine.spec_engine_step(prevrun.0, prevrun.1, prevrun.2, cmd);
                assert(spec_chain_of(self.engine.backend.blocks@) == st.0);
                assert(self.engine.backend.head == st.1);
                assert(self.pool.txs@ == st.2);
                assert(res == st.3);
                assert(old(self).engine.spec_engine_run(chain0, head0, pool0, cmds, i as int)
                    == (st.0, st.1, st.2, prevrun.3.push(st.3)));
                assert(replies@ == prevrun.3.push(res));
            }
        }
        replies
    }

    /// Issues `count` plain seal commands, awaiting each reply before
    /// issuing the next, and returns the replies in order. On an open
    /// node the replies and the resulting chain pointers, head and pool
    /// are exactly the fold of the engine step over `count` plain
    /// commands — whether each seal commits or aborts, and with what, is
    /// fixed. On a node that was shut down every command is answered
    /// with the shutdown error and nothing changes.
    #[verifier::rlimit(100)]
    pub fn seal_blocks(&mut self, count: usize) -> (r: Vec<Result<u64, SealError>>)
        requires
            old(self).wf(),
            old(self).engine.backend.head.number + count <= u64::MAX,
            old(self).channel.queue@.len() == 0,
        ensures
            final(self).wf(),
            spec_same_setup(*old(self), *final(self)),
            r@.len() == count,
            final(self).channel == old(self).channel,
            old(self).channel.closed ==> *final(self) == *old(self) && forall|i: int|
                0 <= i < count ==> r@[i] == Err::<u64, SealError>(SealError::NodeShutdown),
            !old(self).channel.closed ==> ({
                let n0 = old(self).engine.backend.blocks@.len() as int;
                &&& final(self).engine.backend.head.number == old(
                    self,
                ).engine.backend.head.number + spec_ok_count(r@, count as int)
                &&& final(self).engine.backend.blocks@.len() == n0 + spec_ok_count(
                    r@,
                    count as int,
                )
                &&& final(self).engine.backend.blocks@.subrange(0, n0) == old(
                    self,
                ).engine.backend.blocks@
                &&& forall|i: int|
                    0 <= i < count && (#[trigger] r@[i]) is Ok ==> r@[i]->Ok_0
                        == spec_block_hash(
                        final(self).engine.backend.blocks@[n0 + spec_ok_count(r@, i)],
                    )
            }),
            !old(self).channel.closed ==> ({
                let run = old(self).engine.spec_engine_run(
                    spec_chain_of(old(self).engine.backend.blocks@),
                    old(self).engine.backend.head,
                    old(self).pool.txs@,
                    spec_on_head_cmds(count as int),
                    count as int,
                );
                &&& spec_chain_of(final(self).engine.backend.blocks@) == run.0
                &&& final(self).engine.backend.head == run.1
                &&& final(self).pool.txs@ == run.2
                &&& r@ == run.3
            }),
    {
        let ghost n0 = self.engine.backend.blocks@.len() as int;
        let ghost h0 = self.engine.backend.head.number;
        let ghost chain0 = spec_chain_of(self.engine.backend.blocks@);
        let ghost head0 = self.engine.backend.head;
        let ghost pool0 = self.pool.txs@;
        let ghost cmds = spec_on_head_cmds(count as int);
        let mut replies: Vec<Result<u64, SealError>> = Vec::new();
        let mut i: usize = 0;
        while i < count
            invariant
                i <= count,
                replies@.len() == i,
                self.wf(),
                spec_same_setup(*old(self), *self),
                n0 == old(self).engine.backend.blocks@.len() as int,
                h0 == old(self).engine.backend.head.number,
                self.channel == old(self).channel,
                h0 + count <= u64::MAX,
                old(self).channel.closed ==> *self == *old(self) && forall|j: int|
                    0 <= j < i ==> replies@[j] == Err::<u64, SealError>(SealError::NodeShutdown),
                !old(self).channel.closed ==> {
                    &&& self.engine.backend.head.number == h0 + spec_ok_count(
                        replies@,
                        i as int,
                    )
                    &&& self.engine.backend.blocks@.len() == n0 + spec_ok_count(
                        replies@,
                        i as int,
                    )
                    &&& self.engine.backend.blocks@.subrange(0, n0) == old(
                        self,
                    ).engine.backend.blocks@
                    &&& forall|j: int|
                        0 <= j < i && (#[trigger] replies@[j]) is Ok ==> replies@[j]->Ok_0
                            == spec_block_hash(
                            self.engine.backend.blocks@[n0 + spec_ok_count(replies@, j)],
                        )
                },
                chain0 == spec_chain_of(old(self).engine.backend.blocks@),
                head0 == old(self).engine.backend.head,
                pool0 == old(self).pool.txs@,
                cmds == spec_on_head_cmds(count as int),
                !old(self).channel.closed ==> ({
                    let run = old(self).engine.spec_engine_run(chain0, head0, pool0, cmds, i as int);
                    &&& spec_chain_of(self.engine.backend.blocks@) == run.0
                    &&& self.engine.backend.head == run.1
                    &&& self.pool.txs@ == run.2
                    &&& replies@ == run.3
                }),
            decreases count - i,
        {
            if self.channel.is_closed() {
                replies.push(Err(SealError::NodeShutdown));
                i = i + 1;
            } else {
                proof {
                    lemma_ok_count_mono(replies@, 0, i as int);
                }
                let cmd = SealCommand::on_head();
                let ghost pre = *self;
                let ghost pre_replies = replies@;
                let res = self.engine.process(&mut self.pool, &cmd);
                replies.push(res);
                i = i + 1;
                proof {
                    lemma_ok_count_push(pre_replies, res, i as int - 1);
                    if res is Ok {
                        assert(self.engine.backend.blocks@.subrange(0, n0) =~= old(
                            self,
                        ).engine.backend.blocks@);
                    }
                    assert forall|j: int|
                        0 <= j < i && (#[trigger] replies@[j]) is Ok implies replies@[j]->Ok_0
                            == spec_block_hash(
                            self.engine.backend.blocks@[n0 + spec_ok_count(replies@, j)],
                        ) by {
                        lemma_ok_count_push(pre_replies, res, j);
                        if j < i - 1 {
                            lemma_ok_count_push(pre_replies, res, j + 1);
                            assert(replies@[j] == pre_replies[j]);
                            lemma_ok_count_mono(pre_replies, 0, j);
                        lemma_ok_count_mono(pre_replies, j + 1, i as int - 1);
                            assert(n0 + spec_ok_count(replies@, j)
                                < pre.engine.backend.blocks@.len());
                            if res is Ok {
                                let idx = n0 + spec_ok_count(replies@, j);
                                let plen = pre.engine.backend.blocks@.len() as int;
                                assert(self.engine.backend.blocks@.subrange(0, plen)
                                    == pre.engine.backend.blocks@);
                                assert(self.engine.backend.blocks@.subrange(0, plen)[idx]
                                    == self.engine.backend.blocks@[idx]);
                                assert(self.engine.backend.blocks@[idx]
                                    == pre.engine.backend.blocks@[idx]);
                            }
                        } else {
                            assert(replies@[j] == res);
                            if res is Ok {
                                assert(spec_ok_count(replies@, j) == spec_ok_count(
                                    pre_replies,
                                    j,
                                ));
                                assert(self.engine.backend.blocks@[n0 + spec_ok_count(
                                    replies@,
                                    j,
                                )] == self.engine.backend.blocks@.last());
                            }
                        }
                    }
                    let iprev = i as int - 1;
                    let prevrun = old(self).engine.spec_engine_run(
                        chain0,
                        head0,
                        pool0,
                        cmds,
                        iprev,
                    );
                    assert(cmd == cmds[iprev]);
                    assert(spec_chain_of(pre.engine.backend.blocks@) == prevrun.0);
                    assert(pre.engine.backend.head == prevrun.1);
                    assert(pre.pool.txs@ == prevrun.2);
                    assert(pre_replies == prevrun.3);
                    AuthorshipEngine::lemma_step_reads_setup(
                        pre.engine,
                        old(self).engine,
                        prevrun.0,
                        prevrun.1,
                        prevrun.2,
                        cmd,
                    );
                    let st = old(self).engine.spec_engine_step(
                        prevrun.0,
                        prevrun.1,
                        prevrun.2,
                        cmd,
                    );
                    assert(spec_chain_of(self.engine.backend.blocks@) == st.0);
                    assert(self.engine.backend.head == st.1);
                    assert(self.pool.txs@ == st.2);
                    assert(res == st.3);
                    assert(old(self).engine.spec_engine_run(chain0, head0, pool0, cmds, i as int)
                        == (st.0, st.1, st.2, prevrun.3.push(st.3)));
                    assert(replies@ == prevrun.3.push(res));
                }
            }
        }
        replies
    }

    /// Shuts the node down: closes the command channel terminally and
    /// answers every command still queued, in arrival order, with the
    /// shutdown error. The chain, the runtime state and the pool are left
    /// untouched; the command in flight is never cancelled because the
    /// engine loop runs each command to its commit or abort first.
    pub fn shutdown(&mut self) -> (r: Vec<Result<u64, SealError>>)
        requires
            old(self).wf(),
        ensures
            final(self).wf(),
            spec_same_setup(*old(self), *final(self)),
            final(self).engine == old(self).engine,
            final(self).pool == old(self).pool,
            final(self).channel.closed,
            final(self).channel.queue@.len() == 0,
            r@.len() == old(self).channel.queue@.len(),
            forall|i: int|
                0 <= i < r@.len() ==> r@[i] == Err::<u64, SealError>(SealError::NodeShutdown),
    {
        let drained = self.channel.close();
        let total = drained.len();
        let mut replies: Vec<Result<u64, SealError>> = Vec::new();
        let mut i: usize = 0;
        while i < total
            invariant
                i <= total,
                replies@.len() == i,
                forall|j: int|
                    0 <= j < i ==> replies@[j] == Err::<u64, SealError>(SealError::NodeShutdown),
            decreases total - i,
        {
            replies.push(Err(SealError::NodeShutdown));
            i = i + 1;
        }
        replies
    }
}

} // verus!
