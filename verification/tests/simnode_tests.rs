//! End-to-end tests of the simulation node: sealing, submission, state
//! queries, error paths, and the deterministic identifier formulas.

use simnode::engine::AuthorshipEngine;
use simnode::ids::{block_hash, body_hash, extrinsics_root, fold_bytes, mix, transaction_id};
use simnode::import::{Backend, BlockImportPipeline};
use simnode::node::{build_node_subsystems, Node, NodeConfig};
use simnode::pool::TransactionPool;
use simnode::providers::{digest_for, FixedAuthoritySealer, TestClockInherents};
use simnode::runtime::{Era, ExecutorDispatch, NodeTemplateChainInfo, RuntimeState};
use simnode::types::{
    CandidateBlock, ChainHead, ChannelError, PoolError, RuntimeCall, SealCommand, SealError,
    StartupError, Transaction,
};

const ALICE: u64 = 7;

fn test_config() -> NodeConfig {
    NodeConfig {
        genesis_hash: 0,
        channel_capacity: 10,
        pool_capacity: 100,
        allow_empty_blocks: true,
        parachain_context: None,
    }
}

fn test_node(config: NodeConfig) -> Node {
    let sealer = FixedAuthoritySealer::new(vec![(ALICE, 1000)])
        .expect("failed to create ConsensusDataProvider");
    let inherents = TestClockInherents::new(2000).unwrap();
    let pipeline = BlockImportPipeline {
        authorities: vec![(ALICE, 1000)],
        verify_seal: true,
        track_finality: false,
    };
    build_node_subsystems(config, pipeline, sealer, inherents).unwrap()
}

fn remark(payload: &[u8]) -> RuntimeCall {
    RuntimeCall::Remark(payload.to_vec())
}

#[test]
fn substrate_simnode() {
    let mut node = test_node(test_config());
    // seals blocks
    let replies = node.seal_blocks(1);
    assert_eq!(replies.len(), 1);
    assert!(replies[0].is_ok());
    // submit extrinsics
    let hash = node
        .submit_extrinsic(remark(b"hello world"), Some(ALICE))
        .unwrap();
    assert!(node.pool.contains(hash));
    // look ma, I can read state.
    let events = &node.with_state().events;
    assert_eq!(events.len(), 0);
    // get access to the underlying client.
    let client = node.client();
    assert_eq!(client.info().number, 1);
}

#[test]
fn scenario_remark_then_seal_then_empty_block() {
    let mut node = test_node(test_config());
    assert_eq!(node.status(), ChainHead { hash: 0, number: 0 });

    let id = node
        .submit_extrinsic(remark(b"hello world"), Some(ALICE))
        .unwrap();
    assert!(node.pool.contains(id));

    let replies = node.seal_blocks(1);
    assert_eq!(replies.len(), 1);
    let new_hash = replies[0].unwrap();
    assert_eq!(node.status().number, 1);
    assert_eq!(node.status().hash, new_hash);

    // The sealed block holds exactly the submitted transaction.
    let block = node.client().block_at(1);
    assert_eq!(block.body.number, 1);
    assert_eq!(block.body.parent_hash, 0);
    assert_eq!(block.body.extrinsics.len(), 1);
    assert_eq!(transaction_id(&block.body.extrinsics[0]), id);

    // The pool no longer holds it, and the state saw it.
    assert!(!node.pool.contains(id));
    assert_eq!(node.pool.pending_count(), 0);
    let events = &node.with_state().events;
    assert_eq!(events.len(), 1);
    assert_eq!(events[0].block_number, 1);
    assert_eq!(events[0].signer, ALICE);
    assert_eq!(events[0].transaction_id, id);

    // A further seal with no new transactions still produces a valid
    // empty block.
    let replies = node.seal_blocks(1);
    assert!(replies[0].is_ok());
    assert_eq!(node.status().number, 2);
    assert_eq!(node.client().block_at(2).body.extrinsics.len(), 0);
}

#[test]
fn monotonic_head_advancement() {
    let mut node = test_node(test_config());
    let replies = node.seal_blocks(3);
    assert_eq!(replies.len(), 3);
    assert!(replies.iter().all(|r| r.is_ok()));
    assert_eq!(node.status().number, 3);

    let client = node.client();
    let mut parent = 0u64;
    for number in 1..=3u64 {
        let block = client.block_at(number);
        assert_eq!(block.body.number, number);
        assert_eq!(block.body.parent_hash, parent);
        parent = block_hash(block);
    }
    assert_eq!(node.status().hash, parent);
}

#[test]
fn atomic_abort_leaves_head_unchanged() {
    let mut config = test_config();
    config.allow_empty_blocks = false;
    let mut node = test_node(config);
    let before = node.status();
    let replies = node.seal_blocks(1);
    assert_eq!(replies[0], Err(SealError::ProposalError));
    assert_eq!(node.status(), before);
    assert_eq!(node.client().block_count(), 0);
    assert_eq!(node.with_state().events.len(), 0);
}

#[test]
fn fifo_fairness_of_queued_commands() {
    let mut node = test_node(test_config());
    node.submit_extrinsic(remark(b"first"), Some(ALICE)).unwrap();
    let c1 = SealCommand { parent: None, max_transactions: None };
    let c2 = SealCommand { parent: None, max_transactions: None };
    node.enqueue_command(c1).unwrap();
    node.enqueue_command(c2).unwrap();
    let replies = node.run_queued();
    assert_eq!(replies.len(), 2);
    assert!(replies[0].is_ok() && replies[1].is_ok());
    // The command enqueued first took effect first: its block stands
    // lower in the chain and carries the pending transaction.
    let b1 = node.client().block_at(1);
    let b2 = node.client().block_at(2);
    assert_eq!(replies[0].unwrap(), block_hash(b1));
    assert_eq!(replies[1].unwrap(), block_hash(b2));
    assert_eq!(b1.body.extrinsics.len(), 1);
    assert_eq!(b2.body.extrinsics.len(), 0);
}

#[test]
fn transaction_inclusion_respects_limit() {
    let mut node = test_node(test_config());
    let a = node.submit_extrinsic(remark(b"one"), Some(ALICE)).unwrap();
    let b = node.submit_extrinsic(remark(b"two"), Some(ALICE)).unwrap();
    let c = node.submit_extrinsic(remark(b"three"), Some(ALICE)).unwrap();
    node.enqueue_command(SealCommand { parent: None, max_transactions: Some(2) })
        .unwrap();
    let replies = node.run_queued();
    assert!(replies[0].is_ok());
    let block = node.client().block_at(1);
    assert_eq!(block.body.extrinsics.len(), 2);
    assert_eq!(transaction_id(&block.body.extrinsics[0]), a);
    assert_eq!(transaction_id(&block.body.extrinsics[1]), b);
    assert!(node.pool.contains(c));
    assert_eq!(node.pool.pending_count(), 1);
}

#[test]
fn idempotent_inherents() {
    let clock = TestClockInherents::new(2000).unwrap();
    let parent = ChainHead { hash: 9, number: 4 };
    let first = clock.provide(&parent, Some(11)).unwrap();
    let second = clock.provide(&parent, Some(11)).unwrap();
    assert_eq!(first, second);
    assert_eq!(first.timestamp, 2000 * 5);
    assert_eq!(first.parachain_proof, Some(11));
}

#[test]
fn inherent_data_error_on_clock_overflow() {
    let clock = TestClockInherents { slot_duration: u64::MAX };
    let parent = ChainHead { hash: 0, number: 1 };
    assert_eq!(clock.provide(&parent, None), Err(SealError::InherentDataError));

    // Through the engine: the first block still fits the clock, the
    // second does not.
    let sealer = FixedAuthoritySealer::new(vec![(ALICE, 1000)]).unwrap();
    let pipeline = BlockImportPipeline {
        authorities: vec![(ALICE, 1000)],
        verify_seal: true,
        track_finality: false,
    };
    let mut node =
        build_node_subsystems(test_config(), pipeline, sealer, clock).unwrap();
    let replies = node.seal_blocks(2);
    assert!(replies[0].is_ok());
    assert_eq!(replies[1], Err(SealError::InherentDataError));
    assert_eq!(node.status().number, 1);
}

#[test]
fn proposal_error_on_unknown_parent() {
    let mut node = test_node(test_config());
    node.enqueue_command(SealCommand { parent: Some(12345), max_transactions: None })
        .unwrap();
    let replies = node.run_queued();
    assert_eq!(replies[0], Err(SealError::ProposalError));
    assert_eq!(node.status().number, 0);
}

#[test]
fn consensus_digest_error_without_authority() {
    let mut engine = AuthorshipEngine {
        backend: Backend::new(0),
        state: RuntimeState::genesis(),
        sealer: FixedAuthoritySealer { authorities: vec![] },
        inherents: TestClockInherents::new(2000).unwrap(),
        pipeline: BlockImportPipeline {
            authorities: vec![],
            verify_seal: false,
            track_finality: false,
        },
        allow_empty_blocks: true,
        parachain_context: None,
    };
    let mut pool = TransactionPool::new(10);
    let r = engine.process(&mut pool, &SealCommand { parent: None, max_transactions: None });
    assert_eq!(r, Err(SealError::ConsensusDigestError));
    assert_eq!(engine.backend.head.number, 0);
}

#[test]
fn import_error_on_stale_parent() {
    let mut node = test_node(test_config());
    let replies = node.seal_blocks(1);
    assert!(replies[0].is_ok());
    // Building on the genesis block once the head moved past it fails
    // the import pipeline's state-transition stage.
    node.enqueue_command(SealCommand { parent: Some(0), max_transactions: None })
        .unwrap();
    let replies = node.run_queued();
    assert_eq!(replies[0], Err(SealError::ImportError));
    assert_eq!(node.status().number, 1);
}

#[test]
fn import_error_on_authority_mismatch() {
    let config = test_config();
    let sealer = FixedAuthoritySealer::new(vec![(ALICE, 1000)]).unwrap();
    let inherents = TestClockInherents::new(2000).unwrap();
    let pipeline = BlockImportPipeline {
        authorities: vec![(99, 1000)],
        verify_seal: true,
        track_finality: false,
    };
    let mut node = build_node_subsystems(config, pipeline, sealer, inherents).unwrap();
    let replies = node.seal_blocks(1);
    assert_eq!(replies[0], Err(SealError::ImportError));
    assert_eq!(node.status().number, 0);
}

#[test]
fn shutdown_drains_queue_and_closes_channel() {
    let mut node = test_node(test_config());
    node.enqueue_command(SealCommand { parent: None, max_transactions: None })
        .unwrap();
    node.enqueue_command(SealCommand { parent: None, max_transactions: None })
        .unwrap();
    let drained = node.shutdown();
    assert_eq!(drained.len(), 2);
    assert!(drained.iter().all(|r| *r == Err(SealError::NodeShutdown)));
    assert_eq!(node.status().number, 0);

    // Closing is terminal.
    let r = node.enqueue_command(SealCommand { parent: None, max_transactions: None });
    assert_eq!(r, Err(ChannelError::Closed));
    let replies = node.seal_blocks(1);
    assert_eq!(replies[0], Err(SealError::NodeShutdown));
    assert_eq!(node.status().number, 0);
}

#[test]
fn channel_backpressure_when_full() {
    let mut config = test_config();
    config.channel_capacity = 1;
    let mut node = test_node(config);
    node.enqueue_command(SealCommand { parent: None, max_transactions: None })
        .unwrap();
    let r = node.enqueue_command(SealCommand { parent: None, max_transactions: None });
    assert_eq!(r, Err(ChannelError::Full));
    // Nothing was dropped: the queued command still runs.
    let replies = node.run_queued();
    assert_eq!(replies.len(), 1);
    assert!(replies[0].is_ok());
}

#[test]
fn pool_rejections() {
    let mut node = test_node(test_config());
    // Malformed: an empty payload.
    assert_eq!(node.submit_extrinsic(remark(b""), Some(ALICE)), Err(PoolError::Rejected));
    // Duplicate: same signer, same nonce, same payload.
    node.submit_extrinsic(remark(b"hello world"), Some(ALICE)).unwrap();
    assert_eq!(
        node.submit_extrinsic(remark(b"hello world"), Some(ALICE)),
        Err(PoolError::Duplicate)
    );

    // A full pool rejects what does not displace anything.
    let mut small = test_config();
    small.pool_capacity = 1;
    let mut node = test_node(small);
    node.submit_extrinsic(remark(b"first"), Some(ALICE)).unwrap();
    assert_eq!(
        node.submit_extrinsic(remark(b"second"), Some(ALICE)),
        Err(PoolError::Underpriced)
    );
}

#[test]
fn pool_orders_ready_view_by_priority() {
    let mut pool = TransactionPool::new(10);
    let low = Transaction { signer: 1, nonce: 0, priority: 1, call: remark(b"low") };
    let high = Transaction { signer: 2, nonce: 0, priority: 9, call: remark(b"high") };
    let mid_a = Transaction { signer: 3, nonce: 0, priority: 5, call: remark(b"mid a") };
    let mid_b = Transaction { signer: 4, nonce: 0, priority: 5, call: remark(b"mid b") };
    pool.submit(low).unwrap();
    pool.submit(high).unwrap();
    pool.submit(mid_a).unwrap();
    pool.submit(mid_b).unwrap();
    let ready = pool.take_ready(None);
    let priorities: Vec<u64> = ready.iter().map(|t| t.priority).collect();
    assert_eq!(priorities, vec![9, 5, 5, 1]);
    // Stable for equal priorities: first submitted first.
    assert_eq!(ready[1].signer, 3);
    assert_eq!(ready[2].signer, 4);
    assert_eq!(pool.pending_count(), 0);
}

#[test]
fn startup_errors_are_fatal() {
    assert_eq!(
        FixedAuthoritySealer::new(vec![]).unwrap_err(),
        StartupError::MissingAuthorities
    );
    assert_eq!(TestClockInherents::new(0).unwrap_err(), StartupError::BadConfiguration);

    let mut config = test_config();
    config.channel_capacity = 0;
    let sealer = FixedAuthoritySealer::new(vec![(ALICE, 1000)]).unwrap();
    let inherents = TestClockInherents::new(2000).unwrap();
    let pipeline = BlockImportPipeline {
        authorities: vec![(ALICE, 1000)],
        verify_seal: true,
        track_finality: false,
    };
    let r = build_node_subsystems(config, pipeline, sealer, inherents);
    assert_eq!(r.unwrap_err(), StartupError::BadConfiguration);

    let config = test_config();
    let empty_sealer = FixedAuthoritySealer { authorities: vec![] };
    let inherents = TestClockInherents::new(2000).unwrap();
    let pipeline = BlockImportPipeline {
        authorities: vec![],
        verify_seal: false,
        track_finality: false,
    };
    let r = build_node_subsystems(config, pipeline, empty_sealer, inherents);
    assert_eq!(r.unwrap_err(), StartupError::MissingAuthorities);
}

#[test]
fn identifier_formulas() {
    // One folding step: acc * 1000003 + x, modulo 2^64.
    assert_eq!(mix(0, 0), 0);
    assert_eq!(mix(1, 2), 1000005);
    // Byte folds start from zero.
    assert_eq!(fold_bytes(&vec![]), 0);
    assert_eq!(fold_bytes(&vec![1, 2]), 1000005);
    // A transaction's identifier folds signer, nonce and payload from 1:
    // for the all-zero transaction it is 1000003 cubed.
    let t = Transaction { signer: 0, nonce: 0, priority: 0, call: remark(b"") };
    assert_eq!(transaction_id(&t), 1_000_009_000_027_000_027);
    // Priority is not part of the identity.
    let t2 = Transaction { signer: 0, nonce: 0, priority: 5, call: remark(b"") };
    assert_eq!(transaction_id(&t2), transaction_id(&t));

    // A body hash folds the header fields from 2, then the transactions.
    let body = CandidateBlock {
        parent_hash: 4,
        number: 1,
        timestamp: 2000,
        parachain_proof: None,
        extrinsics: vec![t],
    };
    let expected = mix(
        mix(mix(mix(mix(2, body.parent_hash), body.number), body.timestamp), 0),
        extrinsics_root(&body.extrinsics),
    );
    assert_eq!(body_hash(&body), expected);

    // A digest folds the leading authority and the header identity from 3.
    let digest = digest_for(&vec![(ALICE, 1000)], 4, 1, 2000);
    assert_eq!(digest, mix(mix(mix(mix(3, ALICE), 1000), 4), mix(1, 2000)));
}

#[test]
fn block_hash_folds_body_and_digest() {
    let mut node = test_node(test_config());
    let replies = node.seal_blocks(1);
    let sealed = node.client().block_at(1);
    assert_eq!(replies[0].unwrap(), block_hash(sealed));
    assert_eq!(block_hash(sealed), mix(body_hash(&sealed.body), sealed.digest));
}

#[test]
fn runtime_executor_and_signed_extras() {
    assert_eq!(ExecutorDispatch::native_version(), 268);

    let state = RuntimeState::genesis();
    let extras = NodeTemplateChainInfo::signed_extras(&state, ALICE);
    assert_eq!(extras.spec_version, 268);
    assert_eq!(extras.tx_version, 1);
    assert!(extras.check_genesis);
    assert_eq!(extras.era, Era::Immortal);
    assert_eq!(extras.nonce, 0);
    assert!(extras.check_weight);
    assert_eq!(extras.tip, 0);
    assert_eq!(extras.tip_asset, None);

    // Applying a transaction counts against its signer's nonce.
    let mut node = test_node(test_config());
    node.submit_extrinsic(remark(b"hello world"), Some(ALICE)).unwrap();
    node.seal_blocks(1);
    let extras = NodeTemplateChainInfo::signed_extras(node.with_state(), ALICE);
    assert_eq!(extras.nonce, 1);
    let other = NodeTemplateChainInfo::signed_extras(node.with_state(), 99);
    assert_eq!(other.nonce, 0);
}

#[test]
fn backend_lookup_and_finality() {
    let mut config = test_config();
    config.genesis_hash = 77;
    let sealer = FixedAuthoritySealer::new(vec![(ALICE, 1000)]).unwrap();
    let inherents = TestClockInherents::new(2000).unwrap();
    let pipeline = BlockImportPipeline {
        authorities: vec![(ALICE, 1000)],
        verify_seal: true,
        track_finality: true,
    };
    let mut node = build_node_subsystems(config, pipeline, sealer, inherents).unwrap();
    let replies = node.seal_blocks(2);
    assert!(replies.iter().all(|r| r.is_ok()));

    let client = node.client();
    assert_eq!(client.lookup(77), Some(ChainHead { hash: 77, number: 0 }));
    let h1 = block_hash(client.block_at(1));
    assert_eq!(client.lookup(h1), Some(ChainHead { hash: h1, number: 1 }));
    assert_eq!(client.lookup(123456789), None);

    // The finality stage marked every imported block final.
    assert_eq!(client.finalized_number, 2);
}

#[test]
fn finalize_by_hash() {
    let mut node = test_node(test_config());
    let replies = node.seal_blocks(2);
    assert!(replies.iter().all(|r| r.is_ok()));
    assert_eq!(node.client().finalized_number, 0);

    let h2 = block_hash(node.client().block_at(2));
    assert_eq!(node.finalize(h2), Some(2));
    assert_eq!(node.client().finalized_number, 2);

    // Finalizing an ancestor never lowers the finalized height.
    let h1 = block_hash(node.client().block_at(1));
    assert_eq!(node.finalize(h1), Some(1));
    assert_eq!(node.client().finalized_number, 2);

    // An unknown hash finalizes nothing.
    assert_eq!(node.finalize(987654321), None);
    assert_eq!(node.client().finalized_number, 2);
}

#[test]
fn parachain_context_flows_into_blocks() {
    let mut config = test_config();
    config.parachain_context = Some(42);
    let mut node = test_node(config);
    node.seal_blocks(1);
    assert_eq!(node.client().block_at(1).body.parachain_proof, Some(42));
}
