# tomori

An L2 validator node anchored to the Monero chain. The verified library in
`src/` holds the node's logic:

- `mempool`: L2 transactions, the records the mempool store keeps for them
  (keyed by hash, encoded with wincode) and their decoding.
- `aggregator`: proof checks, eviction of rejected transactions, the batch
  payload (the transaction hashes in order) and its state root, as one
  decision per aggregation round.
- `l1_bridge`: routing of the daemon's ZMQ notifications by topic, and what is
  reported of new blocks and pool transactions.
- `rpc`: the search for the common L1 ancestor as a state machine driven by the
  local history and the daemon's replies.
- `network`: gossip settings.

`app/` runs the node: the RocksDB store, the ZMQ socket, the JSON-RPC client,
the libp2p swarm and the loops that perform what the library decides.
