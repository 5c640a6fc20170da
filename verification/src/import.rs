//! The chain backend — the append-only block store holding the canonical
//! chain and the head pointer — and the block-import pipeline, the ordered
//! validation stages a sealed block must pass before becoming canonical.

use vstd::prelude::*;
use crate::ids::{block_hash, spec_block_hash};
use crate::providers::{digest_for, spec_digest};
use crate::types::{ChainHead, SealError, SealedBlock};

verus! {

/// First index whose block hashes to `hash`, scanning from `i`.
pub open spec fn spec_find_from(blocks: Seq<SealedBlock>, hash: u64, i: int) -> Option<int>
    decreases blocks.len() - i,
{
    if i < 0 || i >= blocks.len() {
        Option::None
    } else if spec_block_hash(blocks[i]) == hash {
        Option::Some(i)
    } else {
        spec_find_from(blocks, hash, i + 1)
    }
}

/// A hit of [`spec_find_from`] lies between the scan start and the end of
/// the store, and its block hashes to the sought hash.
pub proof fn lemma_find_from_range(blocks: Seq<SealedBlock>, hash: u64, i: int)
    ensures
        match spec_find_from(blocks, hash, i) {
            Option::Some(j) => i <= j < blocks.len() && spec_block_hash(blocks[j]) == hash,
            Option::None => true,
        },
    decreases blocks.len() - i,
{
    if i < 0 || i >= blocks.len() {
    } else if spec_block_hash(blocks[i]) == hash {
    } else {
        lemma_find_from_range(blocks, hash, i + 1);
    }
}

/// The block store plus chain metadata: genesis, the imported blocks in
/// height order, the head pointer, and the highest finalized height.
#[derive(Debug)]
pub struct Backend {
    /// Hash of the genesis block (height 0, stored nowhere).
    pub genesis_hash: u64,
    /// The imported blocks; the block at index `i` has height `i + 1`.
    pub blocks: Vec<SealedBlock>,
    /// The current best block pointer.
    pub head: ChainHead,
    /// Height of the highest finalized block.
    pub finalized_number: u64,
}

impl Backend {
    /// Whether the store is a well-formed chain: consecutive heights,
    /// every block's parent hash is the hash of the block under it (the
    /// genesis hash under the first), the head points at the topmost
    /// block, and finality never runs ahead of the head.
    pub open spec fn wf(self) -> bool {
        &&& self.head.number == self.blocks@.len()
        &&& (forall|i: int|
            0 <= i < self.blocks@.len() ==> (#[trigger] self.blocks@[i]).body.number == i + 1)
        &&& (forall|i: int|
            0 <= i < self.blocks@.len() ==> (#[trigger] self.blocks@[i]).body.parent_hash == (
            if i == 0 {
                self.genesis_hash
            } else {
                spec_block_hash(self.blocks@[i - 1])
            }))
        &&& self.head.hash == (if self.blocks@.len() == 0 {
            self.genesis_hash
        } else {
            spec_block_hash(self.blocks@.last())
        })
        &&& self.finalized_number <= self.head.number
    }

    /// A store holding only the genesis block pointer: height zero,
    /// nothing imported, nothing finalized.
    pub fn new(genesis_hash: u64) -> (b: Backend)
        ensures
            b.wf(),
            b.genesis_hash == genesis_hash,
            b.blocks@ =~= Seq::<SealedBlock>::empty(),
            b.head == (ChainHead { hash: genesis_hash, number: 0 }),
            b.finalized_number == 0,
    {
        Backend {
            genesis_hash,
            blocks: Vec::new(),
            head: ChainHead { hash: genesis_hash, number: 0 },
            finalized_number: 0,
        }
    }

    /// The current best block pointer.
    pub fn info(&self) -> (h: ChainHead)
        ensures
            h == self.head,
    {
        self.head
    }

    /// The number of imported blocks; the head's height when the store is
    /// well formed.
    pub fn block_count(&self) -> (n: usize)
        ensures
            n == self.blocks@.len(),
    {
        self.blocks.len()
    }

    /// The imported block at height `number`.
    pub fn block_at(&self, number: u64) -> (b: &SealedBlock)
        requires
            1 <= number <= self.blocks@.len(),
        ensures
            *b == self.blocks@[number - 1],
    {
        let n = self.blocks.len();
        proof {
            assert(number - 1 < n);
        }
        let idx: usize = (number - 1) as usize;
        &self.blocks[idx]
    }

    /// Where `hash` stands in the chain: the genesis pointer, the first
    /// imported block with that hash, or nothing.
    pub open spec fn spec_lookup(self, hash: u64) -> Option<ChainHead> {
        if hash == self.genesis_hash {
            Option::Some(ChainHead { hash: self.genesis_hash, number: 0 })
        } else {
            match spec_find_from(self.blocks@, hash, 0) {
                Option::Some(i) => Option::Some(
                    ChainHead { hash, number: self.blocks@[i].body.number },
                ),
                Option::None => Option::None,
            }
        }
    }

    /// Resolves a block hash to a chain pointer; see [`spec_lookup`].
    pub fn lookup(&self, hash: u64) -> (r: Option<ChainHead>)
        ensures
            r == self.spec_lookup(hash),
    {
        if hash == self.genesis_hash {
            return Some(ChainHead { hash: self.genesis_hash, number: 0 });
        }
        let mut i: usize = 0;
        while i < self.blocks.len()
            invariant
                i <= self.blocks@.len(),
                hash != self.genesis_hash,
                spec_find_from(self.blocks@, hash, 0) == spec_find_from(
                    self.blocks@,
                    hash,
                    i as int,
                ),
            decreases self.blocks@.len() - i,
        {
            if block_hash(&self.blocks[i]) == hash {
                proof {
                    assert(spec_find_from(self.blocks@, hash, i as int) == Option::Some(i as int));
                    assert(spec_find_from(self.blocks@, hash, 0) == Option::Some(i as int));
                    assert(self.spec_lookup(hash) == Option::Some(
                        ChainHead { hash, number: self.blocks@[i as int].body.number },
                    ));
                }
                return Some(ChainHead { hash, number: self.blocks[i].body.number });
            }
            i = i + 1;
        }
        None
    }
    /// Whatever a lookup resolves lies at or under the head, and carries
    /// the sought hash.
    pub proof fn lemma_lookup_bounds(self, hash: u64)
        requires
            self.wf(),
        ensures
            match self.spec_lookup(hash) {
                Option::Some(p) => p.number <= self.head.number && p.hash == hash,
                Option::None => true,
            },
    {
        if hash != self.genesis_hash {
            lemma_find_from_range(self.blocks@, hash, 0);
        }
    }
}

/// The ordered validation stages a sealed block passes on import:
/// consensus-digest verification against an expected authority set (when
/// enabled), the state-transition check that the block extends the current
/// head, and finality bookkeeping (when enabled). A rejection by any stage
/// fails the whole pipeline with no partial application.
#[derive(Debug)]
pub struct BlockImportPipeline {
    /// Authority set the digest-verification stage checks against.
    pub authorities: Vec<(u64, u64)>,
    /// Whether the digest-verification stage runs.
    pub verify_seal: bool,
    /// Whether the finality-bookkeeping stage marks every imported block
    /// final.
    pub track_finality: bool,
}

impl BlockImportPipeline {
    /// Whether the digest-verification stage accepts a digest stamped on
    /// a header with the given identity.
    pub open spec fn spec_seal_ok(
        self,
        digest: u64,
        parent_hash: u64,
        number: u64,
        timestamp: u64,
    ) -> bool {
        self.verify_seal ==> (self.authorities@.len() > 0 && digest == spec_digest(
            self.authorities@,
            parent_hash,
            number,
            timestamp,
        ))
    }

    /// Whether the whole pipeline accepts `b` as the next block after
    /// `head`.
    pub open spec fn spec_accepts(self, b: SealedBlock, head: ChainHead) -> bool {
        &&& self.spec_seal_ok(b.digest, b.body.parent_hash, b.body.number, b.body.timestamp)
        &&& b.body.parent_hash == head.hash
        &&& b.body.number == head.number + 1
    }

    /// Runs a sealed block through every stage. On acceptance the block
    /// becomes the new head of `backend` (and is marked final when the
    /// finality stage runs) and its hash is returned; on rejection the
    /// backend is left bit-for-bit unchanged.
    pub fn import(&self, backend: &mut Backend, b: SealedBlock) -> (r: Result<u64, SealError>)
        requires
            old(backend).wf(),
        ensures
            final(backend).wf(),
            final(backend).genesis_hash == old(backend).genesis_hash,
            r is Ok <==> self.spec_accepts(b, old(backend).head),
            r is Err ==> r->Err_0 == SealError::ImportError && *final(backend) == *old(backend),
            r is Ok ==> {
                &&& r->Ok_0 == spec_block_hash(b)
                &&& final(backend).blocks@ == old(backend).blocks@.push(b)
                &&& final(backend).head == (ChainHead {
                    hash: spec_block_hash(b),
                    number: b.body.number,
                })
                &&& final(backend).finalized_number == (if self.track_finality {
                    b.body.number
                } else {
                    old(backend).finalized_number
                })
            },
    {
        if self.verify_seal {
            let seal_ok = if self.authorities.len() == 0 {
                false
            } else {
                let expected = digest_for(
                    &self.authorities,
                    b.body.parent_hash,
                    b.body.number,
                    b.body.timestamp,
                );
                b.digest == expected
            };
            if !seal_ok {
                return Err(SealError::ImportError);
            }
        }
        let extends_head = backend.head.number < u64::MAX && b.body.parent_hash
            == backend.head.hash && b.body.number == backend.head.number + 1;
        if !extends_head {
            return Err(SealError::ImportError);
        }
        let hash = block_hash(&b);
        let number = b.body.number;
        self_import_commit(backend, b, hash, number, self.track_finality);
        Ok(hash)
    }
}

/// Applies an accepted block to the store: appends it, moves the head, and
/// runs the finality stage.
fn self_import_commit(
    backend: &mut Backend,
    b: SealedBlock,
    hash: u64,
    number: u64,
    track_finality: bool,
)
    requires
        old(backend).wf(),
        b.body.parent_hash == old(backend).head.hash,
        b.body.number == old(backend).head.number + 1,
        hash == spec_block_hash(b),
        number == b.body.number,
    ensures
        final(backend).wf(),
        final(backend).genesis_hash == old(backend).genesis_hash,
        final(backend).blocks@ == old(backend).blocks@.push(b),
        final(backend).head == (ChainHead { hash, number }),
        final(backend).finalized_number == (if track_finality {
            number
        } else {
            old(backend).finalized_number
        }),
{
    backend.blocks.push(b);
    backend.head = ChainHead { hash, number };
    if track_finality {
        backend.finalized_number = number;
    }
    proof {
        let s = old(backend).blocks@;
        let n = backend.blocks@;
        assert(n == s.push(b));
        assert(n.last() == b);
        assert forall|i: int| 0 <= i < n.len() implies (#[trigger] n[i]).body.number == i + 1 by {
            if i < s.len() {
                assert(n[i] == s[i]);
            }
        }
        assert forall|i: int| 0 <= i < n.len() implies (#[trigger] n[i]).body.parent_hash == (
            if i == 0 {
                backend.genesis_hash
            } else {
                spec_block_hash(n[i - 1])
            }) by {
            if i < s.len() {
                assert(n[i] == s[i]);
                if i > 0 {
                    assert(n[i - 1] == s[i - 1]);
                }
            } else {
                assert(n[i] == b);
                if i > 0 {
                    assert(n[i - 1] == s[i - 1]);
                    assert(old(backend).head.hash == spec_block_hash(s[i - 1]));
                }
            }
        }
    }
}

} // verus!
