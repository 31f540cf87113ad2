//! Messages of a geyser publisher and the subscription that receives them.

pub mod error;
pub mod filter;
pub mod laws;
pub mod ledger;
pub mod message;
pub mod opts;
pub mod receive;
pub mod subscription;
pub mod zmq_subscriber;
