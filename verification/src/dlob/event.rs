//! What an order book is told.
use vstd::prelude::*;

use crate::types::{MarketType, Order, Pubkey, Slot};

verus! {

/// A change of one order of a user.
#[derive(Debug, Clone, Copy, PartialEq, Eq)]
pub enum OrderDelta<R> {
    Create { user: Pubkey, order: Order<R> },
    Update { user: Pubkey, new_order: Order<R>, old_order: Order<R> },
    Remove { user: Pubkey, order: Order<R> },
}

/// An event for the order book.
#[derive(Debug, Clone, Copy, PartialEq, Eq)]
pub enum DLOBEvent<R> {
    /// An order has changed.
    Order { delta: OrderDelta<R>, slot: Slot },
    /// A new slot has begun, and this is the oracle price of a market in it.
    SlotOrPriceUpdate {
        slot: Slot,
        market_index: u16,
        market_type: MarketType,
        oracle_price: u64,
    },
}

} // verus!
