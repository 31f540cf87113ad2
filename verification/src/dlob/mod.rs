//! Events that keep an order book up to date.

pub mod builder;
pub mod event;
pub mod laws;
