//! Transaction builder utilities for Drift Protocol
use vstd::prelude::*;

use crate::types::{MarketType, OrderParams, OrderTriggerCondition, OrderType, PositionDirection};

verus! {

/// Helper functions for building perp transactions
pub struct PerpTransactionBuilder;

impl PerpTransactionBuilder {
    /// Create a simple perp order
    ///
    /// # Arguments
    /// * `market_index` - The perp market index
    /// * `direction` - Long or Short position direction
    /// * `base_asset_amount` - The base asset amount (in native units, e.g., for SOL use 1_000_000_000 for 1 SOL)
    /// * `price` - The limit price (0 for market orders)
    ///
    /// # Returns
    /// An `OrderParams` struct ready to be used in a transaction
    pub fn create_perp_order(
        market_index: u16,
        direction: PositionDirection,
        base_asset_amount: u64,
        price: u64,
    ) -> (order: OrderParams)
        ensures
            order == (OrderParams {
                market_index,
                market_type: MarketType::Perp,
                direction,
                base_asset_amount,
                price,
                ..OrderParams::default_params()
            }),
            order.order_type == OrderType::Market,
            order.user_order_id == 0,
            order.reduce_only == false,
            order.post_only is None,
            order.bit_flags == 0,
            order.max_ts is None,
            order.trigger_price is None,
            order.trigger_condition == OrderTriggerCondition::Above,
            order.oracle_price_offset is None,
            order.auction_duration is None,
            order.auction_start_price is None,
            order.auction_end_price is None,
    {
        OrderParams {
            market_index,
            market_type: MarketType::Perp,
            direction,
            base_asset_amount,
            price,
            ..Default::default()
        }
    }
}

} // verus!
