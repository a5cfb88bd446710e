//! Verified core of an L2 validator node anchored to the Monero chain:
//! mempool records, proof aggregation, L1 notification routing and the
//! common-ancestor search against the L1 daemon.
pub mod mempool;
pub mod aggregator;
pub mod rpc;
pub mod l1_bridge;
pub mod network;
