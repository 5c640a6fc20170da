//! Deterministic identifiers for transactions and blocks.
//!
//! The harness is a test-oriented single-producer pipeline, so identifiers
//! need to be deterministic and cheap, not cryptographic: every identifier
//! is a polynomial fold of the identified fields, reduced modulo 2^64.

use vstd::prelude::*;
use crate::types::{CandidateBlock, SealedBlock, Transaction};

verus! {

/// Multiplier of the polynomial fold behind every identifier.
pub const ID_MULTIPLIER: u64 = 1000003;

/// Number of values a 64-bit word can take; identifiers are reduced
/// modulo this.
pub const ID_MODULUS: u128 = 0x1_0000_0000_0000_0000;

/// One folding step: the accumulator times [`ID_MULTIPLIER`] plus the new
/// value, modulo 2^64.
pub open spec fn spec_mix(acc: u64, x: u64) -> u64 {
    (((acc * ID_MULTIPLIER + x) as int) % (ID_MODULUS as int)) as u64
}

/// One folding step of every identifier; see [`spec_mix`].
pub fn mix(acc: u64, x: u64) -> (r: u64)
    ensures
        r == spec_mix(acc, x),
{
    let a: u128 = acc as u128;
    proof {
        assert(a * 1000003 <= 0xFFFF_FFFF_FFFF_FFFFu128 * 1000003) by (nonlinear_arith)
            requires
                a <= 0xFFFF_FFFF_FFFF_FFFFu128,
        ;
    }
    let wide: u128 = a * (ID_MULTIPLIER as u128) + (x as u128);
    (wide % ID_MODULUS) as u64
}

/// Fold of the first `i` bytes of `data`, starting from zero.
pub open spec fn spec_fold_bytes(data: Seq<u8>, i: int) -> u64
    decreases i,
{
    if i <= 0 {
        0
    } else {
        spec_mix(spec_fold_bytes(data, i - 1), data[i - 1] as u64)
    }
}

/// Folds a whole byte string into one 64-bit word.
pub fn fold_bytes(data: &Vec<u8>) -> (r: u64)
    ensures
        r == spec_fold_bytes(data@, data@.len() as int),
{
    let mut acc: u64 = 0;
    let mut i: usize = 0;
    while i < data.len()
        invariant
            i <= data@.len(),
            acc == spec_fold_bytes(data@, i as int),
        decreases data@.len() - i,
    {
        acc = mix(acc, data[i] as u64);
        i = i + 1;
    }
    acc
}

/// The identifier of a transaction: a fold of its signer, nonce and call
/// payload. Priority is fee metadata, not identity, so it is left out.
#[verifier::opaque]
pub open spec fn spec_transaction_id(t: Transaction) -> u64 {
    spec_mix(
        spec_mix(spec_mix(1, t.signer), t.nonce),
        spec_fold_bytes(t.call.payload(), t.call.payload().len() as int),
    )
}

/// Computes the identifier of a transaction; see [`spec_transaction_id`].
pub fn transaction_id(t: &Transaction) -> (r: u64)
    ensures
        r == spec_transaction_id(*t),
{
    proof {
        reveal(spec_transaction_id);
    }
    let folded: u64 = match &t.call {
        crate::types::RuntimeCall::Remark(data) => fold_bytes(data),
    };
    mix(mix(mix(1, t.signer), t.nonce), folded)
}

/// Fold of the identifiers of the first `i` transactions of `txs`.
pub open spec fn spec_extrinsics_root(txs: Seq<Transaction>, i: int) -> u64
    decreases i,
{
    if i <= 0 {
        0
    } else {
        spec_mix(spec_extrinsics_root(txs, i - 1), spec_transaction_id(txs[i - 1]))
    }
}

/// Folds a block body's transactions into one root word.
pub fn extrinsics_root(txs: &Vec<Transaction>) -> (r: u64)
    ensures
        r == spec_extrinsics_root(txs@, txs@.len() as int),
{
    let mut acc: u64 = 0;
    let mut i: usize = 0;
    while i < txs.len()
        invariant
            i <= txs@.len(),
            acc == spec_extrinsics_root(txs@, i as int),
        decreases txs@.len() - i,
    {
        let id = transaction_id(&txs[i]);
        acc = mix(acc, id);
        i = i + 1;
    }
    acc
}

/// The hash of a candidate body, before any digest is attached.
#[verifier::opaque]
pub open spec fn spec_body_hash(b: CandidateBlock) -> u64 {
    spec_mix(
        spec_mix(
            spec_mix(
                spec_mix(spec_mix(2, b.parent_hash), b.number),
                b.timestamp,
            ),
            match b.parachain_proof {
                Option::Some(p) => p,
                Option::None => 0,
            },
        ),
        spec_extrinsics_root(b.extrinsics@, b.extrinsics@.len() as int),
    )
}

/// Computes the hash of a candidate body; see [`spec_body_hash`].
pub fn body_hash(b: &CandidateBlock) -> (r: u64)
    ensures
        r == spec_body_hash(*b),
{
    proof {
        reveal(spec_body_hash);
    }
    let proof_word: u64 = match b.parachain_proof {
        Option::Some(p) => p,
        Option::None => 0,
    };
    let root = extrinsics_root(&b.extrinsics);
    mix(mix(mix(mix(mix(2, b.parent_hash), b.number), b.timestamp), proof_word), root)
}

/// The hash of a sealed block: its body hash folded with its digest. This
/// is the identifier a successful seal command replies with.
#[verifier::opaque]
pub open spec fn spec_block_hash(b: SealedBlock) -> u64 {
    spec_mix(spec_body_hash(b.body), b.digest)
}

/// The hash of a sealed block, written over its parts instead of the
/// block value: what [`spec_block_hash`] gives a block assembled from
/// exactly these fields. Lets a specification compute the hash of a block
/// it never constructs.
#[verifier::opaque]
pub open spec fn spec_sealed_hash_parts(
    parent_hash: u64,
    number: u64,
    timestamp: u64,
    parachain_proof: Option<u64>,
    extrinsics_root: u64,
    digest: u64,
) -> u64 {
    spec_mix(
        spec_mix(
            spec_mix(
                spec_mix(
                    spec_mix(spec_mix(2, parent_hash), number),
                    timestamp,
                ),
                match parachain_proof {
                    Option::Some(p) => p,
                    Option::None => 0,
                },
            ),
            extrinsics_root,
        ),
        digest,
    )
}

/// A block's hash is the parts-level hash of its fields.
pub proof fn lemma_block_hash_parts(b: SealedBlock)
    ensures
        spec_block_hash(b) == spec_sealed_hash_parts(
            b.body.parent_hash,
            b.body.number,
            b.body.timestamp,
            b.body.parachain_proof,
            spec_extrinsics_root(b.body.extrinsics@, b.body.extrinsics@.len() as int),
            b.digest,
        ),
{
    reveal(spec_block_hash);
    reveal(spec_body_hash);
    reveal(spec_sealed_hash_parts);
}

/// Computes the hash of a sealed block; see [`spec_block_hash`].
pub fn block_hash(b: &SealedBlock) -> (r: u64)
    ensures
        r == spec_block_hash(*b),
{
    proof {
        reveal(spec_block_hash);
    }
    let h = body_hash(&b.body);
    mix(h, b.digest)
}

} // verus!
