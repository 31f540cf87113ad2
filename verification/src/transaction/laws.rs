//! Laws of order parameters.
use vstd::prelude::*;

use crate::types::{MarketType, OrderParams, OrderTriggerCondition, OrderType, PositionDirection};

verus! {

/// A perp order is a market order on a perp market, with the index, direction,
/// amount and price that were asked for and nothing else: no identifier of the
/// user, no flag, no expiry, no trigger, no oracle offset and no auction.
pub proof fn law_perp_orders_are_plain_market_orders(
    market_index: u16,
    direction: PositionDirection,
    base_asset_amount: u64,
    price: u64,
)
    ensures
        (OrderParams {
            market_index,
            market_type: MarketType::Perp,
            direction,
            base_asset_amount,
            price,
            ..OrderParams::default_params()
        }) == (OrderParams {
            order_type: OrderType::Market,
            market_type: MarketType::Perp,
            direction,
            user_order_id: 0,
            base_asset_amount,
            price,
            market_index,
            reduce_only: false,
            post_only: None,
            bit_flags: 0,
            max_ts: None,
            trigger_price: None,
            trigger_condition: OrderTriggerCondition::Above,
            oracle_price_offset: None,
            auction_duration: None,
            auction_start_price: None,
            auction_end_price: None,
        }),
{
}

/// Parameters that are not given are those of a market order to buy nothing on
/// the first spot market, at no price.
pub proof fn law_default_params()
    ensures
        OrderParams::default_params().market_type == MarketType::Spot,
        OrderParams::default_params().direction == PositionDirection::Long,
        OrderParams::default_params().base_asset_amount == 0,
        OrderParams::default_params().price == 0,
        OrderParams::default_params().market_index == 0,
{
}

} // verus!
