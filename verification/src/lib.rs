//! Feed handling for a trading client: account and slot messages from a
//! publisher socket, the filters that route them to callbacks, the events that
//! keep a decentralised limit order book up to date, and order parameters for
//! perp orders.

pub mod bytes;
pub mod dlob;
pub mod grpc;
pub mod keys;
pub mod text;
pub mod transaction;
pub mod types;
pub mod zmq;
