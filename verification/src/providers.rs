//! The pluggable providers the authorship engine coordinates: the
//! inherent-data provider supplying environment facts, and the consensus
//! metadata provider stamping candidates.

use vstd::prelude::*;
use crate::ids::spec_mix;
use crate::types::{CandidateBlock, ChainHead, InherentData, SealError, SealedBlock, StartupError};

verus! {

/// The inherent-data provider of the harness: a deterministic test-mode
/// clock. The logical timestamp of a block is its height times the slot
/// duration, so replays with identical input produce identical inherents.
#[derive(Clone, Copy, PartialEq, Eq, Debug)]
pub struct TestClockInherents {
    /// Length of one logical slot; the clock advances by it every block.
    pub slot_duration: u64,
}

impl TestClockInherents {
    /// A test clock advancing by `slot_duration` per block. A zero slot
    /// duration is a misconfigured provider and aborts node construction.
    pub fn new(slot_duration: u64) -> (r: Result<TestClockInherents, StartupError>)
        ensures
            r is Ok <==> slot_duration > 0,
            r is Ok ==> r->Ok_0 == (TestClockInherents { slot_duration }),
            r is Err ==> r->Err_0 == StartupError::BadConfiguration,
    {
        if slot_duration == 0 {
            Err(StartupError::BadConfiguration)
        } else {
            Ok(TestClockInherents { slot_duration })
        }
    }

    /// Whether the logical timestamp of the block after `parent` exceeds
    /// the clock's range; providing inherents fails exactly then.
    pub open spec fn spec_timestamp_overflows(self, parent: ChainHead) -> bool {
        (parent.number + 1) * self.slot_duration > u64::MAX
    }

    /// The inherents provided for a block on top of `parent` under the
    /// given cross-chain context: a function of the two arguments and the
    /// clock alone.
    pub open spec fn spec_inherents(self, parent: ChainHead, context: Option<u64>) -> InherentData {
        InherentData {
            timestamp: ((parent.number + 1) * self.slot_duration) as u64,
            parachain_proof: context,
        }
    }

    /// Provides the environment facts for a block on top of `parent`:
    /// the logical timestamp of the next slot and, for nested-chain
    /// scenarios, the cross-chain proof handed in as `context`. Pure with
    /// respect to anything beyond its arguments: repeated invocations
    /// with identical parent and context return identical inherents.
    pub fn provide(&self, parent: &ChainHead, context: Option<u64>) -> (r: Result<
        InherentData,
        SealError,
    >)
        ensures
            r is Ok <==> !self.spec_timestamp_overflows(*parent),
            r is Ok ==> r->Ok_0 == self.spec_inherents(*parent, context),
            r is Err ==> r->Err_0 == SealError::InherentDataError,
    {
        if self.slot_duration == 0 {
            proof {
                assert((parent.number + 1) * self.slot_duration == 0) by (nonlinear_arith)
                    requires
                        self.slot_duration == 0,
                ;
            }
            return Ok(InherentData { timestamp: 0, parachain_proof: context });
        }
        if parent.number == u64::MAX {
            proof {
                assert((parent.number + 1) * self.slot_duration > u64::MAX) by (nonlinear_arith)
                    requires
                        parent.number == u64::MAX,
                        self.slot_duration >= 1,
                ;
            }
            return Err(SealError::InherentDataError);
        }
        let slot = parent.number + 1;
        match slot.checked_mul(self.slot_duration) {
            Option::Some(timestamp) => Ok(InherentData { timestamp, parachain_proof: context }),
            Option::None => Err(SealError::InherentDataError),
        }
    }
}

/// The digest a fixed authority set stamps onto a block header built on
/// `parent_hash` at height `number` in the slot of `timestamp`: a fold of
/// the leading authority and the header identity. Deterministic, so block
/// production is reproducible across reruns.
#[verifier::opaque]
pub open spec fn spec_digest(
    authorities: Seq<(u64, u64)>,
    parent_hash: u64,
    number: u64,
    timestamp: u64,
) -> u64
    recommends
        authorities.len() > 0,
{
    spec_mix(
        spec_mix(spec_mix(spec_mix(3, authorities[0].0), authorities[0].1), parent_hash),
        spec_mix(number, timestamp),
    )
}

/// The consensus metadata provider of the harness: a fixed, weighted
/// authority set whose leading authority stamps every candidate.
#[derive(Debug)]
pub struct FixedAuthoritySealer {
    /// The authority set: `(authority, weight)` pairs; the first entry
    /// signs.
    pub authorities: Vec<(u64, u64)>,
}

impl FixedAuthoritySealer {
    /// A sealer for a fixed authority set. An empty set is a
    /// misconfigured provider and aborts node construction.
    pub fn new(authorities: Vec<(u64, u64)>) -> (r: Result<FixedAuthoritySealer, StartupError>)
        ensures
            r is Ok <==> authorities@.len() > 0,
            r is Ok ==> r->Ok_0.authorities@ == authorities@,
            r is Err ==> r->Err_0 == StartupError::MissingAuthorities,
    {
        if authorities.len() == 0 {
            Err(StartupError::MissingAuthorities)
        } else {
            Ok(FixedAuthoritySealer { authorities })
        }
    }

    /// Stamps a candidate: attaches the authority digest over the header
    /// identity and changes nothing else of the candidate. Fails exactly
    /// when no authority is available. Deterministic given the same
    /// candidate and authority state.
    pub fn seal(&self, body: CandidateBlock) -> (r: Result<SealedBlock, SealError>)
        ensures
            r is Ok <==> self.authorities@.len() > 0,
            r is Ok ==> r->Ok_0.body == body && r->Ok_0.digest == spec_digest(
                self.authorities@,
                body.parent_hash,
                body.number,
                body.timestamp,
            ),
            r is Err ==> r->Err_0 == SealError::ConsensusDigestError,
    {
        if self.authorities.len() == 0 {
            return Err(SealError::ConsensusDigestError);
        }
        let digest = digest_for(&self.authorities, body.parent_hash, body.number, body.timestamp);
        Ok(SealedBlock { body, digest })
    }
}

/// Computes the digest a fixed authority set stamps onto a header; see
/// [`spec_digest`].
pub fn digest_for(
    authorities: &Vec<(u64, u64)>,
    parent_hash: u64,
    number: u64,
    timestamp: u64,
) -> (r: u64)
    requires
        authorities@.len() > 0,
    ensures
        r == spec_digest(authorities@, parent_hash, number, timestamp),
{
    proof {
        reveal(spec_digest);
    }
    let (authority, weight) = authorities[0];
    crate::ids::mix(
        crate::ids::mix(crate::ids::mix(crate::ids::mix(3, authority), weight), parent_hash),
        crate::ids::mix(number, timestamp),
    )
}

} // verus!
