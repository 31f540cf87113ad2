use drift_stream::transaction::builder::PerpTransactionBuilder;
use drift_stream::types::{MarketType, OrderParams, PositionDirection};

#[test]
fn test_create_perp_order() {
    let order = PerpTransactionBuilder::create_perp_order(
        0, // SOL-PERP market
        PositionDirection::Long,
        1_000_000_000, // 1 SOL
        0,             // Market order
    );

    assert_eq!(order.market_index, 0);
    assert_eq!(order.market_type, MarketType::Perp);
    assert_eq!(order.direction, PositionDirection::Long);
    assert_eq!(order.base_asset_amount, 1_000_000_000);
}

#[test]
fn perp_orders_keep_the_other_defaults() {
    let order = PerpTransactionBuilder::create_perp_order(7, PositionDirection::Short, 5, 9);
    assert_eq!(
        order,
        OrderParams {
            market_index: 7,
            market_type: MarketType::Perp,
            direction: PositionDirection::Short,
            base_asset_amount: 5,
            price: 9,
            ..OrderParams::default()
        }
    );
    assert_eq!(OrderParams::default().market_type, MarketType::Spot);
    assert_eq!(order.max_ts, None);
    assert!(!order.reduce_only);
}
