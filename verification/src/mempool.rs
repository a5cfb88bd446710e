//! Unconfirmed L2 transactions and the records that the mempool store keeps for them.
use vstd::prelude::*;
use vstd::bytes::{
    lemma_auto_spec_u64_to_from_le_bytes, spec_u64_from_le_bytes, spec_u64_to_le_bytes, u64_to_le_bytes,
};

verus! {

/// An unconfirmed L2 transaction.
#[derive(Debug, Clone, PartialEq, Eq)]
pub struct L2Transaction {
    pub tx_hash: [u8; 32],
    /// The curve-tree membership proof.
    pub curve_tree_proof: Vec<u8>,
    pub fee: u64,
    pub signature: Vec<u8>,
}

/// What an `L2Transaction` holds, as plain values.
pub struct L2TransactionView {
    pub tx_hash: Seq<u8>,
    pub curve_tree_proof: Seq<u8>,
    pub fee: u64,
    pub signature: Seq<u8>,
}

impl View for L2Transaction {
    type V = L2TransactionView;

    open spec fn view(&self) -> L2TransactionView {
        L2TransactionView {
            tx_hash: self.tx_hash@,
            curve_tree_proof: self.curve_tree_proof@,
            fee: self.fee,
            signature: self.signature@,
        }
    }
}

/// A cached node of the curve tree.
#[derive(Debug, Clone, Copy, PartialEq, Eq)]
pub struct TreeCacheNode {
    pub node_hash: [u8; 32],
    pub left_child: Option<[u8; 32]>,
    pub right_child: Option<[u8; 32]>,
}

/// The column family that holds unconfirmed L2 transactions.
pub const MEMPOOL_CF: &'static str = "mempool_txs";

/// The column family that caches curve-tree nodes.
pub const TREE_CACHE_CF: &'static str = "tree_cache";

/// The column family that holds the validator's own state.
pub const VALIDATOR_STATE_CF: &'static str = "validator_state";

/// The message of the error raised when the store has no mempool column family.
pub const MISSING_MEMPOOL_CF_MESSAGE: &'static str = "CF mempool_txs not found";

/// The largest vector, in bytes, that wincode's default configuration encodes
/// or decodes: 4 MiB.
pub const WINCODE_PREALLOCATION_LIMIT: usize = 4194304;

#[verifier::external_type_specification]
#[verifier::external_body]
pub struct ExWincodeWriteError(wincode::WriteError);

#[verifier::external_type_specification]
#[verifier::external_body]
pub struct ExWincodeReadError(wincode::ReadError);

/// Why a mempool record could not be written or read.
#[derive(Debug)]
pub enum StoreError {
    /// The store has no column family for the mempool.
    MissingColumnFamily,
    /// wincode could not encode the transaction.
    Encode(wincode::WriteError),
    /// wincode could not decode the stored bytes into a transaction.
    Decode(wincode::ReadError),
}

/// A key and value as the mempool column family stores them.
pub struct MempoolRecord {
    pub key: [u8; 32],
    pub value: Vec<u8>,
}

/// The bincode layout of a transaction in wincode's default configuration: the
/// hash's 32 bytes, the proof's length as a little-endian `u64` and its bytes,
/// the fee as a little-endian `u64`, the signature's length and its bytes.
pub open spec fn tx_encoding(tx: L2TransactionView) -> Seq<u8> {
    tx.tx_hash + spec_u64_to_le_bytes(tx.curve_tree_proof.len() as u64) + tx.curve_tree_proof
        + spec_u64_to_le_bytes(tx.fee) + spec_u64_to_le_bytes(tx.signature.len() as u64)
        + tx.signature
}

/// What wincode's default configuration reads from `bytes` as the fields
/// `(tx_hash, curve_tree_proof, fee, signature)`, or `None` where it fails: the
/// hash's 32 bytes, then each vector's length as a little-endian `u64`, which
/// must not pass the 4 MiB preallocation limit, followed by that many bytes, with
/// the fee between the two vectors. Bytes after the signature are left unread.
pub open spec fn tx_decoding(bytes: Seq<u8>) -> Option<(Seq<u8>, Seq<u8>, u64, Seq<u8>)> {
    if bytes.len() < 40 {
        None
    } else {
        let proof_len = spec_u64_from_le_bytes(bytes.subrange(32, 40)) as int;
        let fee_at = 40 + proof_len;
        if proof_len > WINCODE_PREALLOCATION_LIMIT || bytes.len() < fee_at + 16 {
            None
        } else {
            let signature_len = spec_u64_from_le_bytes(bytes.subrange(fee_at + 8, fee_at + 16)) as int;
            let signature_at = fee_at + 16;
            if signature_len > WINCODE_PREALLOCATION_LIMIT || bytes.len() < signature_at
                + signature_len {
                None
            } else {
                Some(
                    (
                        bytes.take(32),
                        bytes.subrange(40, fee_at),
                        spec_u64_from_le_bytes(bytes.subrange(fee_at, fee_at + 8)),
                        bytes.subrange(signature_at, signature_at + signature_len),
                    ),
                )
            }
        }
    }
}

/// Whether both vectors of a transaction are within wincode's preallocation limit.
pub open spec fn encodable(tx: L2TransactionView) -> bool {
    &&& tx.curve_tree_proof.len() <= WINCODE_PREALLOCATION_LIMIT
    &&& tx.signature.len() <= WINCODE_PREALLOCATION_LIMIT
}

/// The fields of a transaction, as the tuple that wincode encodes.
pub open spec fn tx_fields(tx: L2Transaction) -> (Seq<u8>, Seq<u8>, u64, Seq<u8>) {
    (tx@.tx_hash, tx@.curve_tree_proof, tx@.fee, tx@.signature)
}

/// What reading a stored value gives: the transaction whose fields the value
/// decodes to, or a `Decode` error where it decodes to none.
pub open spec fn read_outcome(value: Seq<u8>, r: Result<L2Transaction, StoreError>) -> bool {
    match tx_decoding(value) {
        Some(fields) => r matches Ok(tx) && tx_fields(tx) == fields,
        None => r matches Err(StoreError::Decode(_)),
    }
}

/// Calls `wincode::serialize` on the transaction's fields as a tuple, which
/// wincode lays out as bincode lays out the struct. The contract claims what
/// wincode documents of its default configuration (bincode's layout, fixed-width
/// little-endian integers, `u64` lengths, a 4 MiB preallocation limit on each
/// vector). Which error value comes back over the limit is left unsaid.
#[verifier::external_body]
fn wincode_serialize_tx(tx: &L2Transaction) -> (r: Result<Vec<u8>, wincode::WriteError>)
    ensures
        r is Ok <==> encodable(tx@),
        r matches Ok(bytes) ==> bytes@ == tx_encoding(tx@),
{
    wincode::serialize(&(tx.tx_hash, tx.curve_tree_proof.clone(), tx.fee, tx.signature.clone()))
}

/// Calls `wincode::deserialize` for the tuple of a transaction's fields and
/// builds the transaction from it. The contract claims what wincode's default
/// configuration reads (`tx_decoding`): fixed-width little-endian integers, `u64`
/// lengths each checked against the 4 MiB preallocation limit, trailing bytes
/// allowed; which error value comes back on a failure is left unsaid.
#[verifier::external_body]
fn wincode_deserialize_tx(bytes: &[u8]) -> (r: Result<L2Transaction, wincode::ReadError>)
    ensures
        match r {
            Ok(tx) => tx_decoding(bytes@) == Some(tx_fields(tx)),
            Err(_) => tx_decoding(bytes@) is None,
        },
{
    match wincode::deserialize::<([u8; 32], Vec<u8>, u64, Vec<u8>)>(bytes) {
        Ok((tx_hash, curve_tree_proof, fee, signature)) => Ok(
            L2Transaction { tx_hash, curve_tree_proof, fee, signature },
        ),
        Err(e) => Err(e),
    }
}

/// Builds the record that stores a transaction under its hash, from the
/// outcome of encoding it; an encoding error is passed on as it came.
pub fn record_from_encoding(tx_hash: [u8; 32], encoded: Result<Vec<u8>, wincode::WriteError>) -> (r:
    Result<MempoolRecord, StoreError>)
    ensures
        match encoded {
            Ok(bytes) => r matches Ok(rec) && rec.key == tx_hash && rec.value@ == bytes@,
            Err(e) => r == Err::<MempoolRecord, StoreError>(StoreError::Encode(e)),
        },
{
    match encoded {
        Ok(value) => Ok(MempoolRecord { key: tx_hash, value }),
        Err(e) => Err(StoreError::Encode(e)),
    }
}

/// The record under which the mempool stores `tx`: its hash as the key and its
/// wincode encoding as the value, which decodes back to `tx`. A vector over
/// wincode's preallocation limit makes it an `Encode` error.
pub fn mempool_record(tx: &L2Transaction) -> (r: Result<MempoolRecord, StoreError>)
    ensures
        encodable(tx@) ==> (r matches Ok(rec) && rec.key == tx.tx_hash && rec.value@
            == tx_encoding(tx@)),
        !encodable(tx@) ==> r matches Err(StoreError::Encode(_)),
        tx.curve_tree_proof@.len() <= 4194304 && tx.signature@.len() <= 4194304 ==> r is Ok,
        tx.curve_tree_proof@.len() > 4194304 || tx.signature@.len() > 4194304 ==> r is Err,
        r matches Ok(rec) ==> tx_decoding(rec.value@) == Some(tx_fields(*tx)),
{
    let encoded = wincode_serialize_tx(tx);
    proof {
        if encoded is Ok {
            lemma_encoding_decodes_back(tx@);
        }
    }
    record_from_encoding(tx.tx_hash, encoded)
}

/// The transaction read back from a stored value, from the outcome of decoding
/// it; a decoding error is passed on as it came.
pub fn tx_from_decoding(decoded: Result<L2Transaction, wincode::ReadError>) -> (r: Result<
    L2Transaction,
    StoreError,
>)
    ensures
        match decoded {
            Ok(tx) => r == Ok::<L2Transaction, StoreError>(tx),
            Err(e) => r == Err::<L2Transaction, StoreError>(StoreError::Decode(e)),
        },
{
    match decoded {
        Ok(tx) => Ok(tx),
        Err(e) => Err(StoreError::Decode(e)),
    }
}

/// Decodes a value of the mempool column family into the transaction it holds.
pub fn decode_mempool_value(bytes: &[u8]) -> (r: Result<L2Transaction, StoreError>)
    ensures
        read_outcome(bytes@, r),
{
    tx_from_decoding(wincode_deserialize_tx(bytes))
}

/// A transaction written as a mempool record reads back from the record's value
/// as the same transaction.
pub proof fn lemma_record_reads_back(
    tx: L2Transaction,
    rec: MempoolRecord,
    read: Result<L2Transaction, StoreError>,
)
    requires
        tx_decoding(rec.value@) == Some(tx_fields(tx)),
        read_outcome(rec.value@, read),
    ensures
        read matches Ok(back) && back@ == tx@,
{
}

/// The encoding of a transaction is 56 bytes longer than its two vectors: the
/// hash, the two lengths and the fee.
pub proof fn lemma_tx_encoding_len(tx: L2TransactionView)
    requires
        tx.tx_hash.len() == 32,
    ensures
        tx_encoding(tx).len() == 56 + tx.curve_tree_proof.len() + tx.signature.len(),
{
    lemma_auto_spec_u64_to_from_le_bytes();
}

/// Decoding the encoding of a transaction whose vectors are within the limit
/// gives its fields back.
pub proof fn lemma_encoding_decodes_back(tx: L2TransactionView)
    requires
        tx.tx_hash.len() == 32,
        encodable(tx),
    ensures
        tx_decoding(tx_encoding(tx)) == Some(
            (tx.tx_hash, tx.curve_tree_proof, tx.fee, tx.signature),
        ),
{
    lemma_auto_spec_u64_to_from_le_bytes();
    let b = tx_encoding(tx);
    let p = tx.curve_tree_proof.len() as int;
    let n = tx.signature.len() as int;
    let lp = spec_u64_to_le_bytes(p as u64);
    let lf = spec_u64_to_le_bytes(tx.fee);
    let ln = spec_u64_to_le_bytes(n as u64);
    assert(b == tx.tx_hash + lp + tx.curve_tree_proof + lf + ln + tx.signature);
    assert(b.len() == 56 + p + n);
    assert(b.take(32) =~= tx.tx_hash);
    assert(b.subrange(32, 40) =~= lp);
    assert(b.subrange(40, 40 + p) =~= tx.curve_tree_proof);
    assert(b.subrange(40 + p, 48 + p) =~= lf);
    assert(b.subrange(48 + p, 56 + p) =~= ln);
    assert(b.subrange(56 + p, 56 + p + n) =~= tx.signature);
}

/// The key under which the validator-state column family records the L1 block
/// hash at `height`: the height's eight bytes, most significant first.
pub fn l1_hash_key(height: u64) -> (key: [u8; 8])
    ensures
        key@ == spec_u64_to_le_bytes(height).reverse(),
{
    proof {
        lemma_auto_spec_u64_to_from_le_bytes();
    }
    let le = u64_to_le_bytes(height);
    let key: [u8; 8] = [le[7], le[6], le[5], le[4], le[3], le[2], le[1], le[0]];
    assert(key@ =~= spec_u64_to_le_bytes(height).reverse());
    key
}

/// The L1 block hash that a value of the validator-state column family holds:
/// a value of exactly 32 bytes is the hash; any other value holds none.
pub fn l1_hash_from_value(value: &[u8]) -> (hash: Option<[u8; 32]>)
    ensures
        value@.len() == 32 <==> hash is Some,
        hash matches Some(h) ==> h@ == value@,
{
    if value.len() != 32 {
        return None;
    }
    let mut hash: [u8; 32] = [0u8; 32];
    let mut i: usize = 0;
    while i < 32
        invariant
            i <= 32,
            value@.len() == 32,
            forall|k: int| 0 <= k < i ==> hash@[k] == value@[k],
        decreases 32 - i,
    {
        hash[i] = value[i];
        i = i + 1;
    }
    assert(hash@ =~= value@);
    Some(hash)
}

/// wincode encodes a transaction exactly when each of its two vectors holds at
/// most 4 MiB (4194304 bytes).
pub proof fn lemma_encodable_within_limits(tx: L2TransactionView)
    ensures
        encodable(tx) <==> (tx.curve_tree_proof.len() <= 4194304 && tx.signature.len()
            <= 4194304),
{
}

/// The layout of an encoded transaction: the hash in the first 32 bytes, the
/// proof's length in the next 8 (little-endian), the proof, the fee in 8 bytes,
/// the signature's length in 8 bytes and the signature, with nothing after it.
pub proof fn lemma_tx_encoding_layout(tx: L2TransactionView)
    requires
        tx.tx_hash.len() == 32,
        tx.curve_tree_proof.len() <= 4194304,
        tx.signature.len() <= 4194304,
    ensures
        ({
            let b = tx_encoding(tx);
            let p = tx.curve_tree_proof.len() as int;
            let n = tx.signature.len() as int;
            &&& b.len() == 56 + p + n
            &&& b.take(32) == tx.tx_hash
            &&& spec_u64_from_le_bytes(b.subrange(32, 40)) == p
            &&& b.subrange(40, 40 + p) == tx.curve_tree_proof
            &&& spec_u64_from_le_bytes(b.subrange(40 + p, 48 + p)) == tx.fee
            &&& spec_u64_from_le_bytes(b.subrange(48 + p, 56 + p)) == n
            &&& b.subrange(56 + p, 56 + p + n) == tx.signature
        }),
{
    lemma_auto_spec_u64_to_from_le_bytes();
    let b = tx_encoding(tx);
    let p = tx.curve_tree_proof.len() as int;
    let n = tx.signature.len() as int;
    let lp = spec_u64_to_le_bytes(p as u64);
    let lf = spec_u64_to_le_bytes(tx.fee);
    let ln = spec_u64_to_le_bytes(n as u64);
    assert(b == tx.tx_hash + lp + tx.curve_tree_proof + lf + ln + tx.signature);
    assert(b.take(32) =~= tx.tx_hash);
    assert(b.subrange(32, 40) =~= lp);
    assert(b.subrange(40, 40 + p) =~= tx.curve_tree_proof);
    assert(b.subrange(40 + p, 48 + p) =~= lf);
    assert(b.subrange(48 + p, 56 + p) =~= ln);
    assert(b.subrange(56 + p, 56 + p + n) =~= tx.signature);
}

} // verus!
