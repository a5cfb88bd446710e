use tomori::mempool::{
    decode_mempool_value, l1_hash_from_value, l1_hash_key, mempool_record, record_from_encoding, tx_from_decoding, L2Transaction,
    StoreError, TreeCacheNode, MEMPOOL_CF, MISSING_MEMPOOL_CF_MESSAGE, TREE_CACHE_CF,
    VALIDATOR_STATE_CF, WINCODE_PREALLOCATION_LIMIT,
};

fn sample() -> L2Transaction {
    let mut tx_hash = [0u8; 32];
    for (i, b) in tx_hash.iter_mut().enumerate() {
        *b = i as u8;
    }
    L2Transaction {
        tx_hash,
        curve_tree_proof: vec![9, 8, 7],
        fee: 0x0102,
        signature: vec![0xEE, 0xFF],
    }
}

#[test]
fn record_is_keyed_by_hash() {
    let tx = sample();
    let rec = mempool_record(&tx).expect("encoding succeeds");
    assert_eq!(rec.key, tx.tx_hash);
}

#[test]
fn record_value_has_bincode_layout() {
    let tx = sample();
    let rec = mempool_record(&tx).expect("encoding succeeds");
    let mut expected = tx.tx_hash.to_vec();
    expected.extend_from_slice(&3u64.to_le_bytes());
    expected.extend_from_slice(&[9, 8, 7]);
    expected.extend_from_slice(&0x0102u64.to_le_bytes());
    expected.extend_from_slice(&2u64.to_le_bytes());
    expected.extend_from_slice(&[0xEE, 0xFF]);
    assert_eq!(rec.value, expected);
}

#[test]
fn stored_value_reads_back_as_the_transaction() {
    let tx = sample();
    let rec = mempool_record(&tx).expect("encoding succeeds");
    assert_eq!(decode_mempool_value(&rec.value).expect("decodes"), tx);
}

#[test]
fn truncated_value_is_a_decode_error() {
    let rec = mempool_record(&sample()).expect("encoding succeeds");
    assert!(matches!(decode_mempool_value(&rec.value[..10]), Err(StoreError::Decode(_))));
    assert!(matches!(decode_mempool_value(&[]), Err(StoreError::Decode(_))));
}

#[test]
fn failed_encoding_passes_on_wincode_error() {
    let err = wincode::WriteError::Custom("refused");
    match record_from_encoding([3; 32], Err(err)) {
        Err(StoreError::Encode(wincode::WriteError::Custom(m))) => assert_eq!(m, "refused"),
        _ => panic!("the wincode error must come back as it came"),
    }
    let rec = record_from_encoding([3; 32], Ok(vec![1, 2])).expect("some bytes");
    assert_eq!(rec.key, [3; 32]);
    assert_eq!(rec.value, vec![1, 2]);
}

#[test]
fn decoding_outcome_passes_on_wincode_error() {
    match tx_from_decoding(Err(wincode::ReadError::TrailingBytes)) {
        Err(StoreError::Decode(wincode::ReadError::TrailingBytes)) => {}
        _ => panic!("the wincode error must come back as it came"),
    }
    assert_eq!(tx_from_decoding(Ok(sample())).expect("ok"), sample());
}

#[test]
fn oversized_proof_is_an_encode_error() {
    let mut tx = sample();
    tx.curve_tree_proof = vec![0u8; WINCODE_PREALLOCATION_LIMIT + 1];
    assert!(matches!(mempool_record(&tx), Err(StoreError::Encode(_))));
    tx.curve_tree_proof = vec![0u8; WINCODE_PREALLOCATION_LIMIT];
    let rec = mempool_record(&tx).expect("exactly at the limit encodes");
    assert_eq!(rec.value.len(), 56 + WINCODE_PREALLOCATION_LIMIT + 2);
}

#[test]
fn oversized_signature_is_an_encode_error() {
    let mut tx = sample();
    tx.signature = vec![1u8; WINCODE_PREALLOCATION_LIMIT + 1];
    assert!(matches!(mempool_record(&tx), Err(StoreError::Encode(_))));
}

#[test]
fn missing_column_family_message() {
    assert_eq!(MISSING_MEMPOOL_CF_MESSAGE, "CF mempool_txs not found");
    assert!(matches!(StoreError::MissingColumnFamily, StoreError::MissingColumnFamily));
}

#[test]
fn column_family_names() {
    assert_eq!(MEMPOOL_CF, "mempool_txs");
    assert_eq!(TREE_CACHE_CF, "tree_cache");
    assert_eq!(VALIDATOR_STATE_CF, "validator_state");
}

#[test]
fn tree_cache_node_holds_children() {
    let node = TreeCacheNode { node_hash: [1; 32], left_child: Some([2; 32]), right_child: None };
    let copy = node;
    assert_eq!(copy.left_child, Some([2; 32]));
    assert_eq!(copy.right_child, None);
}

#[test]
fn l1_hash_key_is_big_endian_height() {
    assert_eq!(l1_hash_key(0x0102_0304_0506_0708), [1, 2, 3, 4, 5, 6, 7, 8]);
    assert_eq!(l1_hash_key(0), [0; 8]);
    assert_eq!(l1_hash_key(u64::MAX), [0xFF; 8]);
}

#[test]
fn l1_hash_value_must_be_32_bytes() {
    let bytes: Vec<u8> = (0..32).collect();
    let hash = l1_hash_from_value(&bytes).expect("32 bytes");
    assert_eq!(hash.to_vec(), bytes);
    assert_eq!(l1_hash_from_value(&bytes[..31]), None);
    let mut longer = bytes.clone();
    longer.push(0);
    assert_eq!(l1_hash_from_value(&longer), None);
}

#[test]
fn decoding_leaves_trailing_bytes_unread() {
    let tx = sample();
    let mut value = mempool_record(&tx).expect("encodes").value;
    value.extend_from_slice(&[1, 2, 3]);
    assert_eq!(decode_mempool_value(&value).expect("decodes"), tx);
}

#[test]
fn oversized_length_field_is_a_decode_error() {
    let mut value = vec![0u8; 32];
    value.extend_from_slice(&((WINCODE_PREALLOCATION_LIMIT as u64) + 1).to_le_bytes());
    value.extend_from_slice(&vec![0u8; WINCODE_PREALLOCATION_LIMIT + 1 + 16]);
    assert!(matches!(decode_mempool_value(&value), Err(StoreError::Decode(_))));
}
