//! Settings of the validators' peer-to-peer network.
use vstd::prelude::*;

verus! {

/// The gossip topic on which validators share L2 mempool payloads.
pub const MEMPOOL_TOPIC: &'static str = "monero-l2-mempool";

/// The largest gossip message, 5 MiB, which fits the heavy curve-tree proofs.
pub const MAX_TRANSMIT_SIZE: usize = 5242880;

/// The address on which a validator listens: every interface, a port picked by the system.
pub const LISTEN_ADDRESS: &'static str = "/ip4/0.0.0.0/tcp/0";

/// The largest gossip message, in bytes.
pub fn max_transmit_size() -> (size: usize)
    ensures
        size == 5 * 1024 * 1024,
        size == MAX_TRANSMIT_SIZE,
{
    1024 * 1024 * 5
}

} // verus!
