//! Batching of pending L2 transactions: proof checks, eviction of invalid
//! transactions, the aggregated payload and its state root.
use vstd::prelude::*;
use vstd::multiset::Multiset;
use crate::mempool::L2Transaction;

verus! {

/// How many seconds the engine waits before it tries to build a new batch.
pub const AGGREGATION_INTERVAL_SECS: u64 = 15;

/// The wallet RPC endpoint through which batches are anchored on L1.
pub const WALLET_RPC_URL: &'static str = "http://127.0.0.1:38083/json_rpc";

/// The L1 address of this validator.
pub const VALIDATOR_ADDRESS: &'static str = "55LJ9... (your stagenet address)";

/// The hashes of `txs`, each 32 bytes long, one after the other in order.
pub open spec fn concat_hashes(txs: Seq<L2Transaction>) -> Seq<u8>
    decreases txs.len(),
{
    if txs.len() == 0 {
        Seq::empty()
    } else {
        concat_hashes(txs.drop_last()) + txs.last().tx_hash@
    }
}

/// The state root of an aggregated payload: 32 zero bytes, whatever the payload.
pub open spec fn merkle_root_of(payload: Seq<u8>) -> Seq<u8> {
    Seq::new(32, |i: int| 0u8)
}

/// The state root is 32 zero bytes, whatever the payload: two payloads always
/// have the same root.
pub proof fn lemma_merkle_root_is_zero(payload: Seq<u8>, other: Seq<u8>)
    ensures
        merkle_root_of(payload).len() == 32,
        forall|i: int| 0 <= i < 32 ==> merkle_root_of(payload)[i] == 0u8,
        merkle_root_of(payload) == merkle_root_of(other),
{
    assert(merkle_root_of(payload) =~= merkle_root_of(other));
}

/// Whether the proof of `tx` is accepted. Every transaction is accepted.
pub open spec fn proof_accepted(tx: L2Transaction) -> bool {
    true
}

/// The transactions of `txs` whose proof is accepted, in their order.
pub open spec fn accepted_txs(txs: Seq<L2Transaction>) -> Seq<L2Transaction>
    decreases txs.len(),
{
    if txs.len() == 0 {
        Seq::empty()
    } else if proof_accepted(txs.last()) {
        accepted_txs(txs.drop_last()).push(txs.last())
    } else {
        accepted_txs(txs.drop_last())
    }
}

/// The transactions of `txs` whose proof is rejected, in their order.
pub open spec fn rejected_txs(txs: Seq<L2Transaction>) -> Seq<L2Transaction>
    decreases txs.len(),
{
    if txs.len() == 0 {
        Seq::empty()
    } else if proof_accepted(txs.last()) {
        rejected_txs(txs.drop_last())
    } else {
        rejected_txs(txs.drop_last()).push(txs.last())
    }
}

/// The state root of the aggregated payload.
pub fn calculate_merkle_root(payload: &[u8]) -> (root: [u8; 32])
    ensures
        root@ == merkle_root_of(payload@),
        forall|i: int| 0 <= i < 32 ==> root@[i] == 0u8,
{
    let root = [0u8; 32];
    assert(root@ =~= merkle_root_of(payload@));
    root
}

/// Checks the curve-tree proof of a single L2 transaction against the tree
/// cache held by `db`.
pub fn verify_curve_tree_proof<D>(tx: &L2Transaction, db: &D) -> (accepted: bool)
    ensures
        accepted == proof_accepted(*tx),
{
    true
}

/// Condenses the proofs of valid transactions into a single batch payload: the
/// transaction hashes one after the other.
pub fn aggregate_proofs(txs: &[L2Transaction]) -> (batch_payload: Vec<u8>)
    ensures
        batch_payload@ == concat_hashes(txs@),
{
    let mut batch_payload: Vec<u8> = Vec::new();
    let mut i: usize = 0;
    while i < txs.len()
        invariant
            i <= txs@.len(),
            batch_payload@ == concat_hashes(txs@.take(i as int)),
        decreases txs@.len() - i,
    {
        let ghost before = batch_payload@;
        let hash: &[u8; 32] = &txs[i].tx_hash;
        let mut j: usize = 0;
        while j < 32
            invariant
                j <= 32,
                batch_payload@ == before + hash@.take(j as int),
            decreases 32 - j,
        {
            batch_payload.push(hash[j]);
            assert(hash@.take(j + 1) =~= hash@.take(j as int).push(hash@[j as int]));
            j = j + 1;
        }
        assert(hash@.take(32) =~= hash@);
        assert(txs@.take(i + 1).drop_last() =~= txs@.take(i as int));
        i = i + 1;
    }
    assert(txs@.take(txs@.len() as int) =~= txs@);
    batch_payload
}

/// What the engine does with the pending transactions of one round.
pub enum BatchPlan {
    /// Nothing is pending: wait for the next round.
    Idle,
    /// No proof was accepted: evict the rejected transactions and wait.
    EvictOnly { evicted: Vec<L2Transaction> },
    /// Evict the rejected transactions, then anchor the batch of the accepted ones.
    Anchor {
        evicted: Vec<L2Transaction>,
        valid: Vec<L2Transaction>,
        payload: Vec<u8>,
        state_root: [u8; 32],
    },
}

/// Decides one round of aggregation over the pending transactions: each
/// transaction whose proof is rejected is evicted, and the accepted ones, if any,
/// make the batch whose payload and state root are anchored on L1.
pub fn plan_batch<D>(mempool_txs: Vec<L2Transaction>, db: &D) -> (plan: BatchPlan)
    ensures
        mempool_txs@.len() == 0 <==> plan is Idle,
        plan matches BatchPlan::EvictOnly { evicted } ==> {
            &&& mempool_txs@.len() > 0
            &&& accepted_txs(mempool_txs@).len() == 0
            &&& evicted@ == rejected_txs(mempool_txs@)
        },
        plan matches BatchPlan::Anchor { evicted, valid, payload, state_root } ==> {
            &&& accepted_txs(mempool_txs@).len() > 0
            &&& evicted@ == rejected_txs(mempool_txs@)
            &&& valid@ == accepted_txs(mempool_txs@)
            &&& payload@ == concat_hashes(valid@)
            &&& state_root@ == merkle_root_of(payload@)
            &&& forall|i: int| 0 <= i < 32 ==> state_root@[i] == 0u8
        },
        accepted_txs(mempool_txs@).len() > 0 ==> plan is Anchor,
{
    if mempool_txs.len() == 0 {
        return BatchPlan::Idle;
    }
    let ghost all = mempool_txs@;
    let mut valid: Vec<L2Transaction> = Vec::new();
    let mut evicted: Vec<L2Transaction> = Vec::new();
    for tx in it: mempool_txs.into_iter()
        invariant
            it.seq() == all,
            valid@ == accepted_txs(all.take(it.index() as int)),
            evicted@ == rejected_txs(all.take(it.index() as int)),
    {
        let ghost k = it.index();
        assert(all.take(k + 1).drop_last() =~= all.take(k as int));
        if verify_curve_tree_proof(&tx, db) {
            valid.push(tx);
        } else {
            evicted.push(tx);
        }
    }
    assert(all.take(all.len() as int) =~= all);
    if valid.len() == 0 {
        return BatchPlan::EvictOnly { evicted };
    }
    let payload = aggregate_proofs(valid.as_slice());
    let state_root = calculate_merkle_root(payload.as_slice());
    BatchPlan::Anchor { evicted, valid, payload, state_root }
}

/// The aggregated payload of `txs` is 32 bytes per transaction.
pub proof fn lemma_concat_hashes_len(txs: Seq<L2Transaction>)
    ensures
        concat_hashes(txs).len() == 32 * txs.len(),
    decreases txs.len(),
{
    if txs.len() > 0 {
        lemma_concat_hashes_len(txs.drop_last());
    }
}

/// Aggregating two runs of transactions one after the other gives the two
/// payloads one after the other.
pub proof fn lemma_concat_hashes_append(a: Seq<L2Transaction>, b: Seq<L2Transaction>)
    ensures
        concat_hashes(a + b) == concat_hashes(a) + concat_hashes(b),
    decreases b.len(),
{
    if b.len() == 0 {
        assert(a + b =~= a);
        assert(concat_hashes(b) =~= Seq::<u8>::empty());
        assert(concat_hashes(a) + concat_hashes(b) =~= concat_hashes(a));
    } else {
        lemma_concat_hashes_append(a, b.drop_last());
        assert((a + b).drop_last() =~= a + b.drop_last());
        assert((a + b).last() == b.last());
        assert(concat_hashes(a) + concat_hashes(b.drop_last()) + b.last().tx_hash@
            =~= concat_hashes(a) + (concat_hashes(b.drop_last()) + b.last().tx_hash@));
    }
}

/// Byte `j` of the hash of the `i`-th transaction stands at offset `32 * i + j`
/// of the aggregated payload.
pub proof fn lemma_concat_hashes_slot(txs: Seq<L2Transaction>, i: int, j: int)
    requires
        0 <= i < txs.len(),
        0 <= j < 32,
    ensures
        32 * i + j < concat_hashes(txs).len(),
        concat_hashes(txs)[32 * i + j] == txs[i].tx_hash@[j],
    decreases txs.len(),
{
    lemma_concat_hashes_len(txs);
    lemma_concat_hashes_len(txs.drop_last());
    if i == txs.len() - 1 {
        assert(concat_hashes(txs.drop_last()).len() == 32 * i);
    } else {
        lemma_concat_hashes_slot(txs.drop_last(), i, j);
    }
}

/// Every pending transaction is either kept for the batch or evicted: the two
/// lists together hold exactly the pending transactions.
pub proof fn lemma_accepted_rejected_partition(txs: Seq<L2Transaction>)
    ensures
        accepted_txs(txs).len() + rejected_txs(txs).len() == txs.len(),
        accepted_txs(txs).to_multiset().add(rejected_txs(txs).to_multiset())
            =~= txs.to_multiset(),
        forall|k: int| 0 <= k < accepted_txs(txs).len() ==> proof_accepted(#[trigger] accepted_txs(txs)[k]),
        forall|k: int| 0 <= k < rejected_txs(txs).len() ==> !proof_accepted(#[trigger] rejected_txs(txs)[k]),
    decreases txs.len(),
{
    broadcast use vstd::seq_lib::group_to_multiset_ensures;
    if txs.len() == 0 {
        assert(accepted_txs(txs).to_multiset() =~= Multiset::empty());
        assert(rejected_txs(txs).to_multiset() =~= Multiset::empty());
        assert(txs.to_multiset() =~= Multiset::empty());
    } else {
        let rest = txs.drop_last();
        lemma_accepted_rejected_partition(rest);
        assert(txs =~= rest.push(txs.last()));
    }
}

/// With the current proof check every transaction is accepted: nothing is
/// evicted and the batch holds every pending transaction.
pub proof fn lemma_all_proofs_accepted(txs: Seq<L2Transaction>)
    ensures
        accepted_txs(txs) == txs,
        rejected_txs(txs) == Seq::<L2Transaction>::empty(),
    decreases txs.len(),
{
    if txs.len() > 0 {
        lemma_all_proofs_accepted(txs.drop_last());
        assert(txs.drop_last().push(txs.last()) =~= txs);
    }
}

} // verus!
