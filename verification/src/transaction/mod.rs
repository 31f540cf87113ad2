//! Orders for transactions.

pub mod builder;
pub mod laws;
