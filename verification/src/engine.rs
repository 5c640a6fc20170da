//! The manual block-authorship engine: it turns one seal command into a
//! fully constructed, consensus-stamped, imported block, or into a typed
//! error that leaves the chain exactly as it was.
//!
//! Processing a command runs through the states building, sealing and
//! importing without interleaving another command's steps: the engine
//! snapshots the head, asks the inherent-data provider for environment
//! facts, fills a candidate from the pool's ready view, has the consensus
//! provider stamp it, and pushes the sealed block through the import
//! pipeline. Every step either fully commits — the head advances by
//! exactly one block — or fully aborts with the head untouched.

use vstd::prelude::*;
use crate::ids::{
    lemma_block_hash_parts, spec_block_hash, spec_extrinsics_root, spec_sealed_hash_parts,
};
use crate::import::{spec_find_from, Backend, BlockImportPipeline};
use crate::pool::{spec_ready_count, TransactionPool};
use crate::providers::{digest_for, spec_digest, FixedAuthoritySealer, TestClockInherents};
use crate::runtime::{
    apply_extrinsics, spec_events_after, spec_nonces_after, RuntimeState,
};
use crate::types::{CandidateBlock, ChainHead, SealCommand, SealError, SealedBlock, Transaction};

verus! {

/// The chain pointers of a block store: for each block, its hash and its
/// height, in chain order.
pub open spec fn spec_chain_of(blocks: Seq<SealedBlock>) -> Seq<ChainHead> {
    Seq::new(
        blocks.len(),
        |i: int|
            ChainHead { hash: spec_block_hash(blocks[i]), number: blocks[i].body.number },
    )
}

/// First chain pointer carrying `hash`, scanning from `i`.
pub open spec fn spec_chain_find(chain: Seq<ChainHead>, hash: u64, i: int) -> Option<int>
    decreases chain.len() - i,
{
    if i < 0 || i >= chain.len() {
        Option::None
    } else if chain[i].hash == hash {
        Option::Some(i)
    } else {
        spec_chain_find(chain, hash, i + 1)
    }
}

/// Finding a hash among a store's chain pointers agrees with finding it
/// among the blocks themselves.
pub proof fn lemma_chain_find_matches_blocks(blocks: Seq<SealedBlock>, hash: u64, i: int)
    ensures
        spec_chain_find(spec_chain_of(blocks), hash, i) == spec_find_from(blocks, hash, i),
    decreases blocks.len() - i,
{
    if 0 <= i < blocks.len() && spec_block_hash(blocks[i]) != hash {
        lemma_chain_find_matches_blocks(blocks, hash, i + 1);
    }
}

/// The authorship engine: the single writer of the chain, holding the
/// backend, the runtime state, and the injected-once provider handles.
#[derive(Debug)]
pub struct AuthorshipEngine {
    /// The chain store and head pointer; mutated only by a successful
    /// import.
    pub backend: Backend,
    /// The runtime state as of the head.
    pub state: RuntimeState,
    /// The consensus metadata provider.
    pub sealer: FixedAuthoritySealer,
    /// The inherent-data provider.
    pub inherents: TestClockInherents,
    /// The block-import pipeline.
    pub pipeline: BlockImportPipeline,
    /// Empty-block policy: whether a command with no ready transactions
    /// still produces a block.
    pub allow_empty_blocks: bool,
    /// Cross-chain context handed to the inherent-data provider, if the
    /// chain runs as a parachain.
    pub parachain_context: Option<u64>,
}

impl AuthorshipEngine {
    /// Whether the engine's chain store and runtime state are well formed.
    pub open spec fn wf(self) -> bool {
        &&& self.backend.wf()
        &&& self.state.wf()
    }

    /// The parent a command builds on: the current head, or whatever an
    /// explicit parent hash resolves to.
    pub open spec fn spec_parent_of(self, cmd: SealCommand) -> Option<ChainHead> {
        match cmd.parent {
            Option::Some(h) => self.backend.spec_lookup(h),
            Option::None => Option::Some(self.backend.head),
        }
    }

    /// Whether the import pipeline accepts the block this engine builds
    /// on `parent`: the block must extend the current head, and its
    /// digest must satisfy the pipeline's seal verification.
    pub open spec fn spec_import_ok(self, parent: ChainHead) -> bool {
        let number = (parent.number + 1) as u64;
        let ts = self.inherents.spec_inherents(parent, self.parachain_context).timestamp;
        &&& parent == self.backend.head
        &&& self.pipeline.spec_seal_ok(
            spec_digest(self.sealer.authorities@, parent.hash, number, ts),
            parent.hash,
            number,
            ts,
        )
    }

    /// The fate of one command against a pool of `pool_len` ready
    /// transactions: the error it aborts with, or `None` when it commits.
    /// Failures surface in processing order: an unresolvable parent, then
    /// the inherent-data provider, then the empty-block policy, then the
    /// consensus provider, then the import pipeline.
    pub open spec fn spec_outcome(self, pool_len: int, cmd: SealCommand) -> Option<SealError> {
        match self.spec_parent_of(cmd) {
            Option::None => Option::Some(SealError::ProposalError),
            Option::Some(parent) => {
                if self.inherents.spec_timestamp_overflows(parent) {
                    Option::Some(SealError::InherentDataError)
                } else if spec_ready_count(pool_len, cmd.max_transactions) == 0
                    && !self.allow_empty_blocks {
                    Option::Some(SealError::ProposalError)
                } else if self.sealer.authorities@.len() == 0 {
                    Option::Some(SealError::ConsensusDigestError)
                } else if !self.spec_import_ok(parent) {
                    Option::Some(SealError::ImportError)
                } else {
                    Option::None
                }
            },
        }
    }

    /// The parent a command resolves against, stated over chain pointers
    /// instead of the block store; [`Self::spec_parent_of`] is this at
    /// the engine's own pointers and head.
    pub open spec fn spec_step_parent(
        self,
        chain: Seq<ChainHead>,
        head: ChainHead,
        cmd: SealCommand,
    ) -> Option<ChainHead> {
        match cmd.parent {
            Option::Some(h) => if h == self.backend.genesis_hash {
                Option::Some(ChainHead { hash: self.backend.genesis_hash, number: 0 })
            } else {
                match spec_chain_find(chain, h, 0) {
                    Option::Some(i) => Option::Some(ChainHead { hash: h, number: chain[i].number }),
                    Option::None => Option::None,
                }
            },
            Option::None => Option::Some(head),
        }
    }

    /// Whether the import pipeline accepts the block built on `parent`
    /// while the head is `head`; [`Self::spec_import_ok`] is this at the
    /// engine's own head.
    pub open spec fn spec_step_import_ok(self, head: ChainHead, parent: ChainHead) -> bool {
        let number = (parent.number + 1) as u64;
        let ts = self.inherents.spec_inherents(parent, self.parachain_context).timestamp;
        &&& parent == head
        &&& self.pipeline.spec_seal_ok(
            spec_digest(self.sealer.authorities@, parent.hash, number, ts),
            parent.hash,
            number,
            ts,
        )
    }

    /// The fate of one command, stated over the step state — chain
    /// pointers, head, pool size — instead of the engine's stores.
    pub open spec fn spec_step_outcome(
        self,
        chain: Seq<ChainHead>,
        head: ChainHead,
        pool_len: int,
        cmd: SealCommand,
    ) -> Option<SealError> {
        match self.spec_step_parent(chain, head, cmd) {
            Option::None => Option::Some(SealError::ProposalError),
            Option::Some(parent) => {
                if self.inherents.spec_timestamp_overflows(parent) {
                    Option::Some(SealError::InherentDataError)
                } else if spec_ready_count(pool_len, cmd.max_transactions) == 0
                    && !self.allow_empty_blocks {
                    Option::Some(SealError::ProposalError)
                } else if self.sealer.authorities@.len() == 0 {
                    Option::Some(SealError::ConsensusDigestError)
                } else if !self.spec_step_import_ok(head, parent) {
                    Option::Some(SealError::ImportError)
                } else {
                    Option::None
                }
            },
        }
    }

    /// One engine step as a pure function: from chain pointers, head and
    /// pool contents to the chain pointers, head, pool and reply after
    /// one command. `self` contributes only the construction-time setup
    /// — genesis, providers, pipeline, policies — which processing never
    /// changes. An aborted command returns its error and moves nothing;
    /// an accepted one appends exactly one pointer, advances the head
    /// onto it, and consumes the pool's ready prefix.
    pub open spec fn spec_engine_step(
        self,
        chain: Seq<ChainHead>,
        head: ChainHead,
        pool: Seq<Transaction>,
        cmd: SealCommand,
    ) -> (Seq<ChainHead>, ChainHead, Seq<Transaction>, Result<u64, SealError>) {
        match self.spec_step_outcome(chain, head, pool.len() as int, cmd) {
            Option::Some(e) => (chain, head, pool, Result::Err(e)),
            Option::None => {
                let k = spec_ready_count(pool.len() as int, cmd.max_transactions);
                let number = (head.number + 1) as u64;
                let ts = self.inherents.spec_inherents(head, self.parachain_context).timestamp;
                let taken = pool.subrange(0, k);
                let digest = spec_digest(self.sealer.authorities@, head.hash, number, ts);
                let hash = spec_sealed_hash_parts(
                    head.hash,
                    number,
                    ts,
                    self.parachain_context,
                    spec_extrinsics_root(taken, k),
                    digest,
                );
                let new_head = ChainHead { hash, number };
                (
                    chain.push(new_head),
                    new_head,
                    pool.subrange(k, pool.len() as int),
                    Result::Ok(hash),
                )
            },
        }
    }

    /// An engine run as a pure fold of [`Self::spec_engine_step`] over
    /// the first `i` commands: the final chain pointers, head and pool,
    /// and the reply to every command, in order.
    pub open spec fn spec_engine_run(
        self,
        chain: Seq<ChainHead>,
        head: ChainHead,
        pool: Seq<Transaction>,
        cmds: Seq<SealCommand>,
        i: int,
    ) -> (Seq<ChainHead>, ChainHead, Seq<Transaction>, Seq<Result<u64, SealError>>)
        decreases i,
    {
        if i <= 0 {
            (chain, head, pool, Seq::empty())
        } else {
            let prev = self.spec_engine_run(chain, head, pool, cmds, i - 1);
            let step = self.spec_engine_step(prev.0, prev.1, prev.2, cmds[i - 1]);
            (step.0, step.1, step.2, prev.3.push(step.3))
        }
    }

    /// [`Self::spec_outcome`] is [`Self::spec_step_outcome`] taken at the
    /// engine's own chain pointers and head.
    pub proof fn lemma_outcome_is_step_outcome(self, pool_len: int, cmd: SealCommand)
        ensures
            self.spec_outcome(pool_len, cmd) == self.spec_step_outcome(
                spec_chain_of(self.backend.blocks@),
                self.backend.head,
                pool_len,
                cmd,
            ),
    {
        if cmd.parent is Some {
            let h = cmd.parent->Some_0;
            lemma_chain_find_matches_blocks(self.backend.blocks@, h, 0);
            crate::import::lemma_find_from_range(self.backend.blocks@, h, 0);
            if h != self.backend.genesis_hash {
                match spec_find_from(self.backend.blocks@, h, 0) {
                    Option::Some(j) => {
                        assert(spec_chain_of(self.backend.blocks@)[j].number
                            == self.backend.blocks@[j].body.number);
                    },
                    Option::None => {},
                }
            }
        }
    }

    /// The step reads only the construction-time setup of the engine:
    /// two engines agreeing on it step identically.
    pub proof fn lemma_step_reads_setup(
        e1: AuthorshipEngine,
        e2: AuthorshipEngine,
        chain: Seq<ChainHead>,
        head: ChainHead,
        pool: Seq<Transaction>,
        cmd: SealCommand,
    )
        requires
            e1.backend.genesis_hash == e2.backend.genesis_hash,
            e1.sealer.authorities@ == e2.sealer.authorities@,
            e1.inherents == e2.inherents,
            e1.pipeline.authorities@ == e2.pipeline.authorities@,
            e1.pipeline.verify_seal == e2.pipeline.verify_seal,
            e1.allow_empty_blocks == e2.allow_empty_blocks,
            e1.parachain_context == e2.parachain_context,
        ensures
            e1.spec_engine_step(chain, head, pool, cmd) == e2.spec_engine_step(
                chain,
                head,
                pool,
                cmd,
            ),
    {
        assert(e1.spec_step_parent(chain, head, cmd) == e2.spec_step_parent(chain, head, cmd));
        let pool_len = pool.len() as int;
        match e1.spec_step_parent(chain, head, cmd) {
            Option::Some(parent) => {
                assert(e1.spec_step_import_ok(head, parent) == e2.spec_step_import_ok(
                    head,
                    parent,
                ));
                assert(e1.spec_step_outcome(chain, head, pool_len, cmd) == e2.spec_step_outcome(
                    chain,
                    head,
                    pool_len,
                    cmd,
                ));
            },
            Option::None => {
                assert(e1.spec_step_outcome(chain, head, pool_len, cmd) == e2.spec_step_outcome(
                    chain,
                    head,
                    pool_len,
                    cmd,
                ));
            },
        }
    }

    /// Processes one seal command to its commit or abort.
    ///
    /// On commit the reply carries the new block's hash, and exactly one
    /// block was appended: its parent is the old head, its height the old
    /// height plus one, its transactions are the pool's ready view bounded
    /// by the command's limit (removed from the pool and applied to the
    /// runtime state), its timestamp and cross-chain proof are the
    /// provided inherents, and its digest is the consensus stamp. On
    /// abort the reply carries the error of [`Self::spec_outcome`] and
    /// the engine and the pool are bit-for-bit unchanged.
    pub fn process(&mut self, pool: &mut TransactionPool, cmd: &SealCommand) -> (r: Result<
        u64,
        SealError,
    >)
        requires
            old(self).wf(),
            old(pool).wf(),
            old(self).backend.head.number < u64::MAX,
        ensures
            final(self).wf(),
            final(pool).wf(),
            final(pool).capacity == old(pool).capacity,
            final(self).sealer.authorities@ == old(self).sealer.authorities@,
            final(self).inherents == old(self).inherents,
            final(self).pipeline.authorities@ == old(self).pipeline.authorities@,
            final(self).pipeline.verify_seal == old(self).pipeline.verify_seal,
            final(self).pipeline.track_finality == old(self).pipeline.track_finality,
            final(self).allow_empty_blocks == old(self).allow_empty_blocks,
            final(self).parachain_context == old(self).parachain_context,
            final(self).backend.genesis_hash == old(self).backend.genesis_hash,
            ({
                let st = old(self).spec_engine_step(
                    spec_chain_of(old(self).backend.blocks@),
                    old(self).backend.head,
                    old(pool).txs@,
                    *cmd,
                );
                &&& spec_chain_of(final(self).backend.blocks@) == st.0
                &&& final(self).backend.head == st.1
                &&& final(pool).txs@ == st.2
                &&& r == st.3
            }),
            r is Err <==> old(self).spec_outcome(
                old(pool).txs@.len() as int,
                *cmd,
            ) is Some,
            r is Err ==> r->Err_0 == old(self).spec_outcome(
                old(pool).txs@.len() as int,
                *cmd,
            )->Some_0 && *final(self) == *old(self) && *final(pool) == *old(pool),
            r is Ok ==> ({
                let parent = old(self).backend.head;
                let k = spec_ready_count(old(pool).txs@.len() as int, cmd.max_transactions);
                let number = (parent.number + 1) as u64;
                let ts = old(self).inherents.spec_inherents(
                    parent,
                    old(self).parachain_context,
                ).timestamp;
                let taken = old(pool).txs@.subrange(0, k);
                let nb = final(self).backend.blocks@.last();
                &&& final(self).backend.blocks@.len() == old(self).backend.blocks@.len() + 1
                &&& final(self).backend.blocks@.subrange(
                    0,
                    old(self).backend.blocks@.len() as int,
                ) == old(self).backend.blocks@
                &&& nb.body.parent_hash == parent.hash
                &&& nb.body.number == number
                &&& nb.body.timestamp == ts
                &&& nb.body.parachain_proof == old(self).parachain_context
                &&& nb.body.extrinsics@ == taken
                &&& nb.digest == spec_digest(
                    old(self).sealer.authorities@,
                    parent.hash,
                    number,
                    ts,
                )
                &&& final(self).backend.head == (ChainHead {
                    hash: spec_block_hash(nb),
                    number,
                })
                &&& r->Ok_0 == spec_block_hash(nb)
                &&& final(self).backend.finalized_number == (
                    if old(self).pipeline.track_finality {
                        number
                    } else {
                        old(self).backend.finalized_number
                    })
                &&& final(pool).txs@ == old(pool).txs@.subrange(
                    k,
                    old(pool).txs@.len() as int,
                )
                &&& final(self).state.events@ == spec_events_after(
                    old(self).state.events@,
                    taken,
                    number,
                    k,
                )
                &&& final(self).state.nonces@ == spec_nonces_after(
                    old(self).state.nonces@,
                    taken,
                    k,
                )
            }),
    {
        // Step 1: snapshot the parent the command builds on.
        let parent_opt: Option<ChainHead> = match cmd.parent {
            Option::Some(h) => self.backend.lookup(h),
            Option::None => Some(self.backend.info()),
        };
        let parent = match parent_opt {
            Option::Some(p) => p,
            Option::None => {
                proof {
                    self.lemma_outcome_is_step_outcome(pool.txs@.len() as int, *cmd);
                }
                return Err(SealError::ProposalError);
            },
        };
        proof {
            if cmd.parent is Some {
                self.backend.lemma_lookup_bounds(cmd.parent->Some_0);
            }
            assert(parent.number < u64::MAX);
        }
        // Step 2: ask the inherent-data provider for environment facts.
        let inherent_data = match self.inherents.provide(&parent, self.parachain_context) {
            Result::Ok(d) => d,
            Result::Err(e) => {
                proof {
                    self.lemma_outcome_is_step_outcome(pool.txs@.len() as int, *cmd);
                }
                return Err(e);
            },
        };
        // Step 3: bound the ready view; an empty candidate is allowed
        // only under the permissive empty-block policy.
        let pending = pool.pending_count();
        let ready: usize = match cmd.max_transactions {
            Option::Some(l) => if l <= pending {
                l
            } else {
                pending
            },
            Option::None => pending,
        };
        if ready == 0 && !self.allow_empty_blocks {
            proof {
                self.lemma_outcome_is_step_outcome(pool.txs@.len() as int, *cmd);
            }
            return Err(SealError::ProposalError);
        }
        // Step 4 precondition: a consensus provider with no authority
        // cannot stamp anything.
        if self.sealer.authorities.len() == 0 {
            proof {
                self.lemma_outcome_is_step_outcome(pool.txs@.len() as int, *cmd);
            }
            return Err(SealError::ConsensusDigestError);
        }
        // Step 5 is decided before anything is mutated, so an abort
        // leaves pool, state and chain untouched.
        let number = parent.number + 1;
        let stamped = digest_for(&self.sealer.authorities, parent.hash, number, inherent_data.timestamp);
        let parent_is_head = parent.hash == self.backend.head.hash && parent.number
            == self.backend.head.number;
        let seal_ok = if self.pipeline.verify_seal {
            if self.pipeline.authorities.len() == 0 {
                false
            } else {
                let expected = digest_for(
                    &self.pipeline.authorities,
                    parent.hash,
                    number,
                    inherent_data.timestamp,
                );
                stamped == expected
            }
        } else {
            true
        };
        if !(parent_is_head && seal_ok) {
            proof {
                self.lemma_outcome_is_step_outcome(pool.txs@.len() as int, *cmd);
            }
            return Err(SealError::ImportError);
        }
        // Commit: take the ready transactions, apply them to the runtime
        // state, seal the candidate, and import it.
        let txs = pool.take_ready(cmd.max_transactions);
        apply_extrinsics(&mut self.state, number, &txs);
        let body = CandidateBlock {
            parent_hash: parent.hash,
            number,
            timestamp: inherent_data.timestamp,
            parachain_proof: inherent_data.parachain_proof,
            extrinsics: txs,
        };
        let sealed = match self.sealer.seal(body) {
            Result::Ok(s) => s,
            Result::Err(_) => {
                proof {
                    assert(false);
                }
                return Err(SealError::ConsensusDigestError);
            },
        };
        let ghost gsealed = sealed;
        proof {
            assert(self.pipeline.spec_accepts(gsealed, self.backend.head));
        }
        match self.pipeline.import(&mut self.backend, sealed) {
            Result::Ok(h) => {
                proof {
                    assert(self.backend.blocks@.last() == gsealed);
                    assert(self.backend.blocks@.subrange(
                        0,
                        old(self).backend.blocks@.len() as int,
                    ) =~= old(self).backend.blocks@);
                    old(self).lemma_outcome_is_step_outcome(old(pool).txs@.len() as int, *cmd);
                    lemma_block_hash_parts(gsealed);
                    assert(parent == old(self).backend.head);
                    let k = spec_ready_count(old(pool).txs@.len() as int, cmd.max_transactions);
                    let ts = old(self).inherents.spec_inherents(
                        old(self).backend.head,
                        old(self).parachain_context,
                    ).timestamp;
                    assert(gsealed.body.extrinsics@ == old(pool).txs@.subrange(0, k));
                    assert(gsealed.body.extrinsics@.len() == k);
                    assert(gsealed.body.parent_hash == old(self).backend.head.hash);
                    assert(gsealed.body.number == (old(self).backend.head.number + 1) as u64);
                    assert(gsealed.body.timestamp == ts);
                    assert(gsealed.body.parachain_proof == old(self).parachain_context);
                    assert(gsealed.digest == spec_digest(
                        old(self).sealer.authorities@,
                        old(self).backend.head.hash,
                        gsealed.body.number,
                        ts,
                    ));
                    let oldc = spec_chain_of(old(self).backend.blocks@);
                    let newc = spec_chain_of(self.backend.blocks@);
                    assert forall|i: int| 0 <= i < newc.len() implies newc[i] == oldc.push(
                        self.backend.head,
                    )[i] by {
                        if i < oldc.len() {
                            assert(self.backend.blocks@[i] == old(self).backend.blocks@[i]);
                        } else {
                            assert(self.backend.blocks@[i] == gsealed);
                        }
                    }
                    assert(newc =~= oldc.push(self.backend.head));
                }
                Ok(h)
            },
            Result::Err(_) => {
                proof {
                    assert(false);
                }
                Err(SealError::ImportError)
            },
        }
    }
}

} // verus!
