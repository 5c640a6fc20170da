//! Core data model: chain head, runtime calls, transactions, blocks,
//! seal commands, and the error taxonomy.

use vstd::prelude::*;

verus! {

/// The currently best-imported block: its hash and its height.
///
/// Mutated only by a successful import inside the authorship engine; read
/// by the node facade for status queries.
#[derive(Clone, Copy, PartialEq, Eq, Debug)]
pub struct ChainHead {
    /// Hash of the best block.
    pub hash: u64,
    /// Height of the best block (the genesis block has height 0).
    pub number: u64,
}

/// A call the runtime can execute as part of a block.
#[derive(Debug)]
pub enum RuntimeCall {
    /// Record an opaque payload on chain; it has no effect beyond an event.
    Remark(Vec<u8>),
}

impl RuntimeCall {
    /// The opaque payload the call carries.
    pub open spec fn payload(self) -> Seq<u8> {
        match self {
            RuntimeCall::Remark(data) => data@,
        }
    }
}

/// A submitted, not-yet-included transaction.
#[derive(Debug)]
pub struct Transaction {
    /// Account that signed the transaction.
    pub signer: u64,
    /// Sequence number of the transaction within its signer's account.
    pub nonce: u64,
    /// Admission priority; the pool's ready view orders by it, descending.
    pub priority: u64,
    /// The runtime call to execute.
    pub call: RuntimeCall,
}

/// Environment facts a block must embed but that are not user-submitted
/// transactions.
#[derive(Clone, Copy, PartialEq, Eq, Debug)]
pub struct InherentData {
    /// Monotonic logical timestamp (test-mode clock, not wall clock).
    pub timestamp: u64,
    /// Cross-chain state proof for nested-chain scenarios, if any.
    pub parachain_proof: Option<u64>,
}

/// An in-progress, unsealed block body: parent, height, inherents, and the
/// admitted transactions. Ephemeral; either sealed-and-imported or discarded
/// within a single command's processing.
#[derive(Debug)]
pub struct CandidateBlock {
    /// Hash of the parent block.
    pub parent_hash: u64,
    /// Height of this block: the parent's height plus one.
    pub number: u64,
    /// Inherent logical timestamp.
    pub timestamp: u64,
    /// Inherent cross-chain proof, if the chain runs as a parachain.
    pub parachain_proof: Option<u64>,
    /// The transactions included in the block, in ready order.
    pub extrinsics: Vec<Transaction>,
}

/// A candidate block plus its consensus digest. Immutable once produced;
/// handed to the block-import pipeline exactly once.
#[derive(Debug)]
pub struct SealedBlock {
    /// The block body, exactly as the candidate was built.
    pub body: CandidateBlock,
    /// The consensus digest stamped onto the candidate.
    pub digest: u64,
}

/// A request to produce exactly one block.
#[derive(Clone, Copy, PartialEq, Eq, Debug)]
pub struct SealCommand {
    /// Explicit parent selection: a block hash, or `None` for the current
    /// chain head.
    pub parent: Option<u64>,
    /// Upper bound on the number of transactions included, or `None` for
    /// all ready transactions.
    pub max_transactions: Option<usize>,
}

impl SealCommand {
    /// A plain command: build on the current head, include every ready
    /// transaction.
    pub fn on_head() -> (c: SealCommand)
        ensures
            c == (SealCommand { parent: None, max_transactions: None }),
    {
        SealCommand { parent: None, max_transactions: None }
    }
}

/// Why a seal command failed. Delivered to the command's own reply slot;
/// never crashes the engine loop.
#[derive(Clone, Copy, PartialEq, Eq, Debug)]
pub enum SealError {
    /// The environment-fact provider failed.
    InherentDataError,
    /// Candidate construction was impossible: unknown parent, or an empty
    /// block where policy forbids one.
    ProposalError,
    /// Sealing failed: no authority was available to stamp the block.
    ConsensusDigestError,
    /// A validation stage of the import pipeline rejected the block.
    ImportError,
    /// The engine had shut down before the command was processed.
    NodeShutdown,
}

/// Why the transaction pool rejected a submission.
#[derive(Clone, Copy, PartialEq, Eq, Debug)]
pub enum PoolError {
    /// A transaction with the same identifier is already pending.
    Duplicate,
    /// The transaction is malformed: its call carries an empty payload.
    Rejected,
    /// The pool is full and the transaction does not displace anything.
    Underpriced,
}

/// Why the command channel refused an enqueue.
#[derive(Clone, Copy, PartialEq, Eq, Debug)]
pub enum ChannelError {
    /// The channel was closed by shutdown; closing is terminal.
    Closed,
    /// The buffer is full; the producer must wait and retry (backpressure —
    /// commands are never dropped).
    Full,
}

/// Why node construction was aborted before any command was accepted.
#[derive(Clone, Copy, PartialEq, Eq, Debug)]
pub enum StartupError {
    /// The consensus metadata provider was constructed with no authorities.
    MissingAuthorities,
    /// The configuration is unusable: a zero channel capacity or a zero
    /// slot duration.
    BadConfiguration,
}

} // verus!
