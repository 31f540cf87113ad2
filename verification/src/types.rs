//! Plain values shared by the modules of the library.
use vstd::prelude::*;

verus! {

/// The address of an account.
pub type Pubkey = [u8; 32];

/// A SHA-256 digest, such as a block hash.
pub type HashBytes = [u8; 32];

/// An ed25519 signature.
pub type Signature = [u8; 64];

/// The number of a slot.
pub type Slot = u64;

/// Seconds since the Unix epoch.
pub type UnixTimestamp = i64;

/// The kinds of markets.
#[derive(Debug, Clone, Copy, PartialEq, Eq, Hash, Structural)]
pub enum MarketType {
    Spot,
    Perp,
}

/// A market: its kind, and its index among the markets of that kind.
#[derive(Debug, Clone, Copy, PartialEq, Eq, Hash, Structural)]
pub struct MarketId {
    pub index: u16,
    pub kind: MarketType,
}

/// The side of a position or an order.
#[derive(Debug, Clone, Copy, PartialEq, Eq, Hash, Structural)]
pub enum PositionDirection {
    Long,
    Short,
}

/// Where an order of a user account stands.
#[derive(Debug, Clone, Copy, PartialEq, Eq, Hash, Structural)]
pub enum OrderStatus {
    Init,
    Open,
    Filled,
    Canceled,
}

/// An order of a user account. `order_id` tells the orders of a user apart. What
/// else the account holds of the order is `rest`, which is passed on unread.
#[derive(Debug, Clone, Copy, PartialEq, Eq)]
pub struct Order<R> {
    pub order_id: u32,
    pub market: MarketId,
    pub direction: PositionDirection,
    pub price: u64,
    pub base_asset_amount: u64,
    pub base_asset_amount_filled: u64,
    pub status: OrderStatus,
    pub rest: R,
}

/// A user account, as far as the order book is concerned.
#[derive(Debug, Clone, PartialEq, Eq)]
pub struct User<R> {
    pub orders: Vec<Order<R>>,
}

/// An account as it was at a slot.
#[derive(Debug, Clone, Copy, PartialEq, Eq)]
pub struct DataAndSlot<T> {
    pub slot: Slot,
    pub data: T,
}

/// How an order is to be executed.
#[derive(Debug, Clone, Copy, PartialEq, Eq, Hash, Structural)]
pub enum OrderType {
    Market,
    Limit,
    TriggerMarket,
    TriggerLimit,
    Oracle,
}

/// How strictly an order may only add liquidity.
#[derive(Debug, Clone, Copy, PartialEq, Eq, Hash, Structural)]
pub enum PostOnlyParam {
    MustPostOnly,
    TryPostOnly,
    Slide,
}

/// On which side of its trigger price an order is triggered, and whether it was.
#[derive(Debug, Clone, Copy, PartialEq, Eq, Hash, Structural)]
pub enum OrderTriggerCondition {
    Above,
    Below,
    TriggeredAbove,
    TriggeredBelow,
}

/// The parameters of an order that is to be placed.
#[derive(Debug, Clone, Copy, PartialEq, Eq)]
pub struct OrderParams {
    pub order_type: OrderType,
    pub market_type: MarketType,
    pub direction: PositionDirection,
    pub user_order_id: u8,
    pub base_asset_amount: u64,
    pub price: u64,
    pub market_index: u16,
    pub reduce_only: bool,
    pub post_only: Option<PostOnlyParam>,
    pub bit_flags: u8,
    pub max_ts: Option<i64>,
    pub trigger_price: Option<u64>,
    pub trigger_condition: OrderTriggerCondition,
    pub oracle_price_offset: Option<i32>,
    pub auction_duration: Option<u8>,
    pub auction_start_price: Option<i64>,
    pub auction_end_price: Option<i64>,
}

impl OrderParams {
    /// The parameters that stand where none are given.
    pub open spec fn default_params() -> OrderParams {
        OrderParams {
            order_type: OrderType::Market,
            market_type: MarketType::Spot,
            direction: PositionDirection::Long,
            user_order_id: 0,
            base_asset_amount: 0,
            price: 0,
            market_index: 0,
            reduce_only: false,
            post_only: None,
            bit_flags: 0,
            max_ts: None,
            trigger_price: None,
            trigger_condition: OrderTriggerCondition::Above,
            oracle_price_offset: None,
            auction_duration: None,
            auction_start_price: None,
            auction_end_price: None,
        }
    }
}

impl Default for OrderParams {
    fn default() -> (params: Self)
        ensures
            params == OrderParams::default_params(),
    {
        OrderParams {
            order_type: OrderType::Market,
            market_type: MarketType::Spot,
            direction: PositionDirection::Long,
            user_order_id: 0,
            base_asset_amount: 0,
            price: 0,
            market_index: 0,
            reduce_only: false,
            post_only: None,
            bit_flags: 0,
            max_ts: None,
            trigger_price: None,
            trigger_condition: OrderTriggerCondition::Above,
            oracle_price_offset: None,
            auction_duration: None,
            auction_start_price: None,
            auction_end_price: None,
        }
    }
}

} // verus!
