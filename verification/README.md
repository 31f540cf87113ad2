# drift_stream

Feed handling for a trading client on the Drift protocol.

* `zmq`: messages of a publisher over ZMQ, the filters that route account
  updates to callbacks, socket options, and the course of a subscription with
  its retries.
* `dlob`: the events that keep a decentralised limit order book up to date with
  user accounts, slots and oracle prices.
* `transaction`: parameters of perp orders.

The library under `src/` is verified with Verus: contracts say what its functions do,
and `zmq/laws.rs` and `dlob/laws.rs` state what holds across functions. What the
library calls in other crates (key sets of `ahash`, `Memcmp::bytes_match` of
`solana_rpc_client_api`) and in the standard library's clock and hash sets
stands behind small trusted items in `keys.rs`, `zmq/filter.rs` and
`zmq/message.rs`.

`app/` holds the sockets, threads and bincode decoding around it; it is ordinary
Rust. `tests/` runs the library.
