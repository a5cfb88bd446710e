use tomori::network::{max_transmit_size, LISTEN_ADDRESS, MAX_TRANSMIT_SIZE, MEMPOOL_TOPIC};

#[test]
fn transmit_size_is_five_mebibytes() {
    assert_eq!(max_transmit_size(), 5 * 1024 * 1024);
    assert_eq!(MAX_TRANSMIT_SIZE, 5_242_880);
}

#[test]
fn topic_and_listen_address() {
    assert_eq!(MEMPOOL_TOPIC, "monero-l2-mempool");
    assert_eq!(LISTEN_ADDRESS, "/ip4/0.0.0.0/tcp/0");
}
