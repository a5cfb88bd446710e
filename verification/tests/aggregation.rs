use tomori::aggregator::{
    aggregate_proofs, calculate_merkle_root, plan_batch, verify_curve_tree_proof, BatchPlan,
    AGGREGATION_INTERVAL_SECS,
};
use tomori::mempool::L2Transaction;

fn tx(seed: u8, fee: u64) -> L2Transaction {
    L2Transaction {
        tx_hash: [seed; 32],
        curve_tree_proof: vec![seed, seed.wrapping_add(1)],
        fee,
        signature: vec![0xAB; 4],
    }
}

#[test]
fn merkle_root_is_all_zero() {
    assert_eq!(calculate_merkle_root(&[]), [0u8; 32]);
    assert_eq!(calculate_merkle_root(&[1, 2, 3, 4, 5]), [0u8; 32]);
}

#[test]
fn every_proof_is_accepted() {
    let db = ();
    assert!(verify_curve_tree_proof(&tx(7, 1), &db));
    assert!(verify_curve_tree_proof(&tx(0, 0), &"any store"));
}

#[test]
fn aggregate_of_nothing_is_empty() {
    assert!(aggregate_proofs(&[]).is_empty());
}

#[test]
fn aggregate_concatenates_hashes_in_order() {
    let mut first = tx(1, 10);
    first.tx_hash[31] = 0xFF;
    let second = tx(2, 20);
    let payload = aggregate_proofs(&[first.clone(), second.clone()]);
    assert_eq!(payload.len(), 64);
    assert_eq!(&payload[..32], &first.tx_hash[..]);
    assert_eq!(&payload[32..], &second.tx_hash[..]);
    assert_eq!(payload[31], 0xFF);
    assert_eq!(payload[32], 2);
}

#[test]
fn aggregate_of_joined_batches_is_joined_payloads() {
    let a = vec![tx(1, 1), tx(2, 2)];
    let b = vec![tx(3, 3)];
    let mut joined = a.clone();
    joined.extend(b.clone());
    let mut expected = aggregate_proofs(&a);
    expected.extend(aggregate_proofs(&b));
    assert_eq!(aggregate_proofs(&joined), expected);
}

#[test]
fn empty_mempool_plans_nothing() {
    assert!(matches!(plan_batch(Vec::new(), &()), BatchPlan::Idle));
}

#[test]
fn pending_transactions_are_anchored_in_order() {
    let pending = vec![tx(5, 50), tx(6, 60), tx(7, 70)];
    match plan_batch(pending.clone(), &()) {
        BatchPlan::Anchor { evicted, valid, payload, state_root } => {
            assert!(evicted.is_empty());
            assert_eq!(valid, pending);
            assert_eq!(payload.len(), 96);
            assert_eq!(payload, aggregate_proofs(&pending));
            assert_eq!(&payload[64..], &[7u8; 32][..]);
            assert_eq!(state_root, [0u8; 32]);
        }
        _ => panic!("a batch of pending transactions must be anchored"),
    }
}

#[test]
fn interval_is_fifteen_seconds() {
    assert_eq!(AGGREGATION_INTERVAL_SECS, 15);
}
