use std::cell::Cell;
use std::sync::atomic::{AtomicUsize, Ordering};
use std::sync::Arc;

use drift_stream::dlob::builder::{
    check_user_data, events_of_deltas, events_of_new_user, events_of_user_update,
    plan_user_change, AccountMapTrait, DLOBBuilder, Rejection, SlotUpdate, UserChange,
    UserLayout,
};
use drift_stream::dlob::event::{DLOBEvent, OrderDelta};
use drift_stream::grpc::AccountUpdate;
use drift_stream::types::{
    DataAndSlot, MarketId, MarketType, Order, OrderStatus, PositionDirection, Pubkey, User,
};

/// What an order holds besides what the library reads: a label.
type Rest = &'static str;

const USER: Pubkey = [3; 32];
const LAYOUT: UserLayout<'static> = UserLayout {
    discriminator: &[9, 9, 9, 9, 9, 9, 9, 9],
    size: 2,
};
const USER_DATA: [u8; 10] = [9, 9, 9, 9, 9, 9, 9, 9, 1, 2];

struct StoredUser(Option<DataAndSlot<User<Rest>>>);

impl AccountMapTrait<User<Rest>> for StoredUser {
    fn account_data_and_slot(&self, account: &Pubkey) -> Option<DataAndSlot<User<Rest>>> {
        if account == &USER {
            self.0.clone()
        } else {
            None
        }
    }
}

fn order(order_id: u32, status: OrderStatus, amount: u64, filled: u64) -> Order<Rest> {
    Order {
        order_id,
        market: MarketId {
            index: 1,
            kind: MarketType::Perp,
        },
        direction: PositionDirection::Long,
        price: 100,
        base_asset_amount: amount,
        base_asset_amount_filled: filled,
        status,
        rest: "kept",
    }
}

fn orders() -> Vec<Order<Rest>> {
    vec![
        order(1, OrderStatus::Open, 10, 0),
        order(2, OrderStatus::Open, 10, 10),
        order(3, OrderStatus::Canceled, 10, 0),
        order(4, OrderStatus::Open, 10, 9),
        order(5, OrderStatus::Init, 10, 0),
        order(6, OrderStatus::Filled, 10, 0),
    ]
}

fn create(order: Order<Rest>, slot: u64) -> DLOBEvent<Rest> {
    DLOBEvent::Order {
        delta: OrderDelta::Create { user: USER, order },
        slot,
    }
}

fn remove(order: Order<Rest>) -> OrderDelta<Rest> {
    OrderDelta::Remove { user: USER, order }
}

fn update(data: &[u8], slot: u64) -> AccountUpdate<'_> {
    AccountUpdate {
        owner: [0; 32],
        pubkey: USER,
        slot,
        lamports: 0,
        executable: false,
        rent_epoch: 0,
        data,
    }
}

fn handle(stored: Option<u64>, data: &[u8], slot: u64) -> Result<Vec<DLOBEvent<Rest>>, Rejection> {
    let builder = DLOBBuilder::new(&(), vec![]);
    let map = StoredUser(stored.map(|slot| DataAndSlot {
        slot,
        data: User {
            orders: vec![orders()[5]],
        },
    }));
    builder.account_update_handler(
        &map,
        &LAYOUT,
        |data: &[u8]| {
            assert_eq!(data, &USER_DATA);
            User { orders: orders() }
        },
        |user: &Pubkey, old: &User<Rest>, new: &User<Rest>| {
            assert_eq!(user, &USER);
            assert_eq!(old.orders, vec![orders()[5]]);
            assert_eq!(new.orders, orders());
            vec![remove(old.orders[0]), remove(new.orders[1])]
        },
        &update(data, slot),
    )
}

#[test]
fn unknown_users_announce_their_resting_orders() {
    let all = orders();
    assert_eq!(
        handle(None, &USER_DATA, 7),
        Ok(vec![create(all[0], 7), create(all[3], 7)])
    );
}

#[test]
fn known_users_are_compared() {
    let all = orders();
    for stored in [6, 7] {
        assert_eq!(
            handle(Some(stored), &USER_DATA, 7),
            Ok(vec![
                DLOBEvent::Order {
                    delta: remove(all[5]),
                    slot: 7
                },
                DLOBEvent::Order {
                    delta: remove(all[1]),
                    slot: 7
                },
            ])
        );
    }
}

#[test]
fn older_updates_are_dropped() {
    assert_eq!(handle(Some(8), &USER_DATA, 7), Ok(vec![]));
}

#[test]
fn repeated_updates_give_the_same_events_at_their_slot() {
    for stored in [None, Some(4), Some(6)] {
        let first = handle(stored, &USER_DATA, 5).unwrap();
        assert_eq!(handle(stored, &USER_DATA, 5).unwrap(), first);
        for event in first {
            assert!(matches!(event, DLOBEvent::Order { slot: 5, .. }));
        }
    }
    assert_eq!(handle(None, &[1], 5), handle(None, &[1], 5));
}

#[test]
fn lookups_are_made_once() {
    struct Counting(AtomicUsize);
    impl AccountMapTrait<User<Rest>> for Counting {
        fn account_data_and_slot(&self, account: &Pubkey) -> Option<DataAndSlot<User<Rest>>> {
            assert_eq!(account, &USER);
            self.0.fetch_add(1, Ordering::Relaxed);
            None
        }
    }
    let map = Counting(AtomicUsize::new(0));
    let builder = DLOBBuilder::new(&(), vec![]);
    for (data, lookups) in [(&USER_DATA[..], 1), (&USER_DATA[..3], 1), (&USER_DATA[..], 2)] {
        let _ = builder.account_update_handler(
            &map,
            &LAYOUT,
            |_: &[u8]| User { orders: vec![] },
            |_: &Pubkey, _: &User<Rest>, _: &User<Rest>| vec![],
            &update(data, 5),
        );
        assert_eq!(map.0.load(Ordering::Relaxed), lookups);
    }
}

#[test]
fn short_data_is_rejected() {
    assert_eq!(
        handle(None, &USER_DATA[..9], 7),
        Err(Rejection::TooSmall {
            expected: 10,
            actual: 9
        })
    );
    assert_eq!(
        check_user_data(&[], &LAYOUT),
        Err(Rejection::TooSmall {
            expected: 10,
            actual: 0
        })
    );
}

#[test]
fn other_accounts_are_rejected() {
    let mut data = USER_DATA;
    data[7] = 0;
    assert_eq!(handle(None, &data, 7), Err(Rejection::WrongDiscriminator));
    assert_eq!(check_user_data(&USER_DATA, &LAYOUT), Ok(()));
    let longer = [&USER_DATA[..], &[1, 2, 3]].concat();
    assert_eq!(check_user_data(&longer, &LAYOUT), Ok(()));
}

#[test]
fn changes_of_users() {
    assert_eq!(plan_user_change(None, 3), UserChange::FirstSeen);
    assert_eq!(plan_user_change(Some(2), 3), UserChange::Compare);
    assert_eq!(plan_user_change(Some(3), 3), UserChange::Compare);
    assert_eq!(plan_user_change(Some(4), 3), UserChange::Stale);
}

#[test]
fn events_of_an_update_depend_on_what_is_stored() {
    let user = User { orders: orders() };
    let deltas = vec![remove(orders()[2])];
    let update = update(&USER_DATA, 5);
    assert_eq!(
        events_of_user_update(&update, &user, None, &deltas),
        events_of_new_user(&USER, &user.orders, 5)
    );
    assert_eq!(
        events_of_user_update(&update, &user, Some(5), &deltas),
        events_of_deltas(&deltas, 5)
    );
    assert_eq!(
        events_of_user_update(&update, &user, Some(6), &deltas),
        vec![]
    );
}

#[test]
fn each_change_is_one_event() {
    let deltas = vec![
        remove(orders()[0]),
        OrderDelta::Update {
            user: USER,
            new_order: orders()[1],
            old_order: orders()[0],
        },
    ];
    assert_eq!(
        events_of_deltas(&deltas, 2),
        vec![
            DLOBEvent::Order {
                delta: deltas[0],
                slot: 2
            },
            DLOBEvent::Order {
                delta: deltas[1],
                slot: 2
            },
        ]
    );
}

#[test]
fn maps_can_be_borrowed_and_shared() {
    let stored = Some(DataAndSlot {
        slot: 4,
        data: User { orders: vec![] },
    });
    let map = StoredUser(stored.clone());
    assert_eq!((&map).account_data_and_slot(&USER), stored);
    assert_eq!(Arc::new(map).account_data_and_slot(&USER), stored);
}

fn markets() -> Vec<MarketId> {
    vec![
        MarketId {
            index: 0,
            kind: MarketType::Perp,
        },
        MarketId {
            index: 1,
            kind: MarketType::Spot,
        },
        MarketId {
            index: 2,
            kind: MarketType::Perp,
        },
    ]
}

fn price(market: MarketId, slot: u64, oracle_price: u64) -> DLOBEvent<Rest> {
    DLOBEvent::SlotOrPriceUpdate {
        slot,
        market_index: market.index,
        market_type: market.kind,
        oracle_price,
    }
}

#[test]
fn known_prices_give_one_event_each() {
    let builder = DLOBBuilder::new(&(), markets());
    let all = markets();
    assert_eq!(
        builder.price_updates(8, &vec![Some(5), None, Some(6)]),
        vec![price(all[0], 8, 5), price(all[2], 8, 6)]
    );
    assert!(builder
        .price_updates::<Rest>(8, &vec![None, None, None])
        .is_empty());
}

#[test]
fn negative_prices_wrap() {
    let builder = DLOBBuilder::new(&(), vec![markets()[1]]);
    assert_eq!(
        builder.price_updates(1, &vec![Some(-1)]),
        vec![price(markets()[1], 1, u64::MAX)]
    );
    assert_eq!(
        builder.price_updates(1, &vec![Some(i64::MIN)]),
        vec![price(markets()[1], 1, 1 << 63)]
    );
    assert_eq!(
        builder.price_updates(1, &vec![Some(i64::MAX)]),
        vec![price(markets()[1], 1, i64::MAX as u64)]
    );
}

#[test]
fn slot_handlers_ask_for_each_market_in_order() {
    let book = 42;
    let builder = DLOBBuilder::new(&book, markets());
    let all = markets();
    let asked = Cell::new(0);
    let oracle = |market: MarketId| {
        assert_eq!(market, markets()[asked.get()]);
        asked.set(asked.get() + 1);
        if market.kind == MarketType::Perp {
            Some(100 + market.index as i64)
        } else {
            None
        }
    };
    let expected = vec![price(all[0], 3, 100), price(all[2], 3, 102)];
    assert_eq!(
        builder.slot_update_handler(&oracle, 3),
        SlotUpdate {
            events: expected.clone(),
            slot: 3
        }
    );
    assert_eq!(asked.get(), 3);
    asked.set(0);
    assert_eq!(
        builder.slot_update_handler_with_oracle_map(&oracle, 3),
        expected
    );
    assert_eq!(asked.get(), 3);
}

#[test]
fn slots_are_handed_on_without_prices_too() {
    let builder = DLOBBuilder::new(&(), markets());
    let update: SlotUpdate<Rest> = builder.slot_update_handler(|_: MarketId| None, 17);
    assert!(update.events.is_empty());
    assert_eq!(update.slot, 17);
}

#[test]
fn builders_give_back_their_book() {
    let book = vec![1, 2];
    let builder = DLOBBuilder::new(&book, markets());
    assert_eq!(builder.dlob(), &book);
    assert_eq!(builder.market_ids(), &markets());
}
