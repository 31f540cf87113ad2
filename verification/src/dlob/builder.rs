//! Turns account and slot updates into events for an order book.
use std::sync::Arc;

use vstd::prelude::*;

use crate::bytes::{first_bytes_are, first_bytes_match, DISCRIMINATOR_LEN};
use crate::dlob::event::{DLOBEvent, OrderDelta};
use crate::grpc::AccountUpdate;
use crate::types::{DataAndSlot, MarketId, Order, OrderStatus, Pubkey, Slot, User};

verus! {

/// Trait for account maps that can provide account data of type `T`
pub trait AccountMapTrait<T>: Send + Sync {
    fn account_data_and_slot(&self, account: &Pubkey) -> Option<DataAndSlot<T>>;
}

// References to account maps are account maps.
impl<T, M: AccountMapTrait<T>> AccountMapTrait<T> for &M {
    fn account_data_and_slot(&self, account: &Pubkey) -> (stored: Option<DataAndSlot<T>>)
        ensures
            call_ensures(M::account_data_and_slot, (*self, account), stored),
    {
        (**self).account_data_and_slot(account)
    }
}

// Shared account maps are account maps.
impl<T, M: AccountMapTrait<T>> AccountMapTrait<T> for Arc<M> {
    fn account_data_and_slot(&self, account: &Pubkey) -> (stored: Option<DataAndSlot<T>>)
        ensures
            call_ensures(M::account_data_and_slot, (&**self, account), stored),
    {
        (**self).account_data_and_slot(account)
    }
}

/// How user accounts are laid out: their discriminator, and the size of what
/// follows it.
#[derive(Debug, Clone, Copy)]
pub struct UserLayout<'a> {
    pub discriminator: &'a [u8],
    pub size: usize,
}

impl<'a> UserLayout<'a> {
    /// Whether the size of an account, with its discriminator, can be counted.
    pub open spec fn wf(self) -> bool {
        DISCRIMINATOR_LEN + self.size <= usize::MAX
    }
}

/// Why the data of an account was not taken for a user.
#[derive(Debug, Clone, Copy, PartialEq, Eq, Structural)]
pub enum Rejection {
    /// The data is shorter than a user account.
    TooSmall { expected: usize, actual: usize },
    /// The data begins with another discriminator.
    WrongDiscriminator,
}

/// Why `data` is not the data of a user account, if it is not.
pub open spec fn rejection(data: Seq<u8>, layout: UserLayout<'_>) -> Option<Rejection> {
    if data.len() < DISCRIMINATOR_LEN + layout.size {
        Some(
            Rejection::TooSmall {
                expected: (DISCRIMINATOR_LEN + layout.size) as usize,
                actual: data.len() as usize,
            },
        )
    } else if !first_bytes_are(data, DISCRIMINATOR_LEN as nat, layout.discriminator@) {
        Some(Rejection::WrongDiscriminator)
    } else {
        None
    }
}

/// Validates account data before it is decoded as a user.
pub fn check_user_data(data: &[u8], layout: &UserLayout<'_>) -> (checked: Result<(), Rejection>)
    requires
        layout.wf(),
    ensures
        checked == (match rejection(data@, *layout) {
            Some(why) => Err::<(), Rejection>(why),
            None => Ok::<(), Rejection>(()),
        }),
{
    let min_size: usize = DISCRIMINATOR_LEN + layout.size;
    if data.len() < min_size {
        return Err(Rejection::TooSmall { expected: min_size, actual: data.len() });
    }
    if !first_bytes_match(data, DISCRIMINATOR_LEN, layout.discriminator) {
        return Err(Rejection::WrongDiscriminator);
    }
    Ok(())
}

/// What an update of a user calls for.
#[derive(Debug, Clone, Copy, PartialEq, Eq, Structural)]
pub enum UserChange {
    /// The user was not known: its resting orders are new.
    FirstSeen,
    /// The user was known: its orders have to be compared.
    Compare,
    /// The update is older than what is known.
    Stale,
}

/// What an update at `update_slot` calls for, given the slot of what is known.
pub open spec fn user_change(stored_slot: Option<Slot>, update_slot: Slot) -> UserChange {
    match stored_slot {
        None => UserChange::FirstSeen,
        Some(slot) => if slot <= update_slot {
            UserChange::Compare
        } else {
            UserChange::Stale
        },
    }
}

/// Decides what an update of a user calls for.
pub fn plan_user_change(stored_slot: Option<Slot>, update_slot: Slot) -> (change: UserChange)
    ensures
        change == user_change(stored_slot, update_slot),
{
    match stored_slot {
        None => UserChange::FirstSeen,
        Some(slot) => {
            if slot <= update_slot {
                UserChange::Compare
            } else {
                UserChange::Stale
            }
        },
    }
}

impl<R> Order<R> {
    /// Whether an order is in the book: it is open and not filled.
    pub open spec fn is_resting(self) -> bool {
        self.status == OrderStatus::Open && self.base_asset_amount > self.base_asset_amount_filled
    }
}

/// The event of a change at a slot.
pub open spec fn order_event<R>(delta: OrderDelta<R>, slot: Slot) -> DLOBEvent<R> {
    DLOBEvent::Order { delta, slot }
}

/// The events of changes at a slot, in their order.
pub open spec fn order_events<R>(deltas: Seq<OrderDelta<R>>, slot: Slot) -> Seq<DLOBEvent<R>> {
    deltas.map_values(|delta: OrderDelta<R>| order_event(delta, slot))
}

/// The resting orders of a user that is new, as changes.
pub open spec fn creations<R>(user: Pubkey, orders: Seq<Order<R>>) -> Seq<OrderDelta<R>> {
    orders.filter(|order: Order<R>| order.is_resting()).map_values(
        |order: Order<R>| OrderDelta::Create { user, order },
    )
}

/// Makes the events of changes at a slot.
pub fn events_of_deltas<R: Copy>(deltas: &Vec<OrderDelta<R>>, slot: Slot) -> (events: Vec<DLOBEvent<R>>)
    ensures
        events@ == order_events(deltas@, slot),
{
    let mut events: Vec<DLOBEvent<R>> = Vec::new();
    let mut i: usize = 0;
    while i < deltas.len()
        invariant
            i <= deltas@.len(),
            events@ == order_events(deltas@.take(i as int), slot),
        decreases deltas@.len() - i,
    {
        events.push(DLOBEvent::Order { delta: deltas[i], slot });
        i = i + 1;
        assert(events@ =~= order_events(deltas@.take(i as int), slot));
    }
    assert(deltas@.take(i as int) =~= deltas@);
    events
}

/// Makes the events of a user that is new: one for each of its resting orders.
pub fn events_of_new_user<R: Copy>(user: &Pubkey, orders: &Vec<Order<R>>, slot: Slot) -> (events: Vec<
    DLOBEvent<R>,
>)
    ensures
        events@ == order_events(creations(*user, orders@), slot),
{
    let mut events: Vec<DLOBEvent<R>> = Vec::new();
    let mut i: usize = 0;
    let ghost resting = |order: Order<R>| order.is_resting();
    assert(orders@.take(0) =~= Seq::empty());
    assert(creations(*user, orders@.take(0)) =~= Seq::empty()) by {
        reveal(Seq::filter);
    }
    assert(events@ =~= order_events(creations(*user, orders@.take(0)), slot));
    while i < orders.len()
        invariant
            i <= orders@.len(),
            resting == (|order: Order<R>| order.is_resting()),
            events@ == order_events(creations(*user, orders@.take(i as int)), slot),
        decreases orders@.len() - i,
    {
        let order: Order<R> = orders[i];
        let ghost before = orders@.take(i as int);
        let ghost with = orders@.take(i + 1);
        proof {
            assert(with.drop_last() =~= before);
            assert(with.last() == order);
            assert(with.filter(resting) == if resting(order) {
                before.filter(resting).push(order)
            } else {
                before.filter(resting)
            }) by {
                reveal(Seq::filter);
            }
        }
        if order.status == OrderStatus::Open && order.base_asset_amount
            > order.base_asset_amount_filled {
            events.push(
                DLOBEvent::Order { delta: OrderDelta::Create { user: *user, order }, slot },
            );
        }
        assert(events@ =~= order_events(creations(*user, with), slot));
        i = i + 1;
    }
    assert(orders@.take(i as int) =~= orders@);
    events
}

/// The slot of what is known of a user.
pub open spec fn slot_of<T>(stored: Option<DataAndSlot<T>>) -> Option<Slot> {
    match stored {
        Some(known) => Some(known.slot),
        None => None,
    }
}

/// Makes the events of an update of a user. `deltas` are the changes between
/// what is known and the update; they count where the update calls for a
/// comparison.
pub fn events_of_user_update<R: Copy>(
    update: &AccountUpdate<'_>,
    new_user: &User<R>,
    stored_slot: Option<Slot>,
    deltas: &Vec<OrderDelta<R>>,
) -> (events: Vec<DLOBEvent<R>>)
    ensures
        events@ == (match user_change(stored_slot, update.slot) {
            UserChange::FirstSeen => order_events(
                creations(update.pubkey, new_user.orders@),
                update.slot,
            ),
            UserChange::Compare => order_events(deltas@, update.slot),
            UserChange::Stale => Seq::empty(),
        }),
{
    match plan_user_change(stored_slot, update.slot) {
        UserChange::FirstSeen => events_of_new_user(&update.pubkey, &new_user.orders, update.slot),
        UserChange::Compare => events_of_deltas(deltas, update.slot),
        UserChange::Stale => Vec::new(),
    }
}

/// A signed price in the unsigned form that events carry: modulo 2^64.
pub open spec fn unsigned_price(price: i64) -> u64 {
    if price >= 0 {
        price as u64
    } else {
        (price + 0x1_0000_0000_0000_0000) as u64
    }
}

/// The event of a slot in which a market has a price.
pub open spec fn price_event<R>(slot: Slot, market: MarketId, price: i64) -> DLOBEvent<R> {
    DLOBEvent::SlotOrPriceUpdate {
        slot,
        market_index: market.index,
        market_type: market.kind,
        oracle_price: unsigned_price(price),
    }
}

/// The events of a slot: one for each market whose price is known, in the order
/// of the markets.
pub open spec fn price_events<R>(
    slot: Slot,
    markets: Seq<MarketId>,
    prices: Seq<Option<i64>>,
) -> Seq<DLOBEvent<R>>
    decreases markets.len(),
{
    if markets.len() == 0 {
        Seq::empty()
    } else {
        let before = price_events(slot, markets.drop_last(), prices.drop_last());
        match prices.last() {
            Some(price) => before.push(price_event(slot, markets.last(), price)),
            None => before,
        }
    }
}

/// Whether `events` are what an update of a user account gives: a rejection, or
/// the events that follow from what decoding the data, looking the user up and
/// comparing its orders gave.
pub open spec fn answers_update<R, M, F, C>(
    account_map: &M,
    layout: UserLayout<'_>,
    decode: F,
    compare_user_orders: C,
    update: AccountUpdate<'_>,
    events: Result<Vec<DLOBEvent<R>>, Rejection>,
) -> bool where
    M: AccountMapTrait<User<R>>,
    F: Fn(&[u8]) -> User<R>,
    C: Fn(&Pubkey, &User<R>, &User<R>) -> Vec<OrderDelta<R>>,
 {
    match rejection(update.data@, layout) {
        Some(why) => events == Err::<Vec<DLOBEvent<R>>, Rejection>(why),
        None => {
            &&& events is Ok
            &&& exists|new_user: User<R>|
                {
                    &&& #[trigger] call_ensures(decode, (update.data,), new_user)
                    &&& exists|stored: Option<DataAndSlot<User<R>>>|
                        {
                            &&& #[trigger] call_ensures(
                                M::account_data_and_slot,
                                (account_map, &update.pubkey),
                                stored,
                            )
                            &&& match user_change(slot_of(stored), update.slot) {
                                UserChange::Compare => exists|deltas: Vec<OrderDelta<R>>|
                                    {
                                        &&& #[trigger] call_ensures(
                                            compare_user_orders,
                                            (&update.pubkey, &stored->Some_0.data, &new_user),
                                            deltas,
                                        )
                                        &&& events->Ok_0@ == order_events(deltas@, update.slot)
                                    },
                                UserChange::FirstSeen => events->Ok_0@ == order_events(
                                    creations(update.pubkey, new_user.orders@),
                                    update.slot,
                                ),
                                UserChange::Stale => events->Ok_0@.len() == 0,
                            }
                        }
                }
        },
    }
}

/// What a new slot calls for.
#[derive(Debug, Clone, PartialEq, Eq)]
pub struct SlotUpdate<R> {
    /// The events for the order book, in the order in which they are to be sent.
    pub events: Vec<DLOBEvent<R>>,
    /// The slot to send to `slot_tx`, once the book has been notified.
    pub slot: Slot,
}

/// Convenience builder for constructing and managing an event driven order
/// book. Its handlers give the events that are to be sent to the book, in the
/// order in which they are to be sent.
pub struct DLOBBuilder<'a, D> {
    dlob: &'a D,
    market_ids: Vec<MarketId>,
}

impl<'a, D> DLOBBuilder<'a, D> {
    /// The order book.
    pub closed spec fn book(self) -> D {
        *self.dlob
    }

    /// The markets that the book tracks.
    pub closed spec fn markets(self) -> Seq<MarketId> {
        self.market_ids@
    }

    /// Initialize a new DLOBBuilder instance for an order book
    pub fn new(dlob: &'a D, market_ids: Vec<MarketId>) -> (builder: Self)
        ensures
            builder.book() == *dlob,
            builder.markets() == market_ids@,
    {
        DLOBBuilder { dlob, market_ids }
    }

    /// Return the DLOB instance
    pub fn dlob(&self) -> (dlob: &'a D)
        ensures
            *dlob == self.book(),
    {
        self.dlob
    }

    /// The markets that the book tracks
    pub fn market_ids(&self) -> (market_ids: &Vec<MarketId>)
        ensures
            market_ids@ == self.markets(),
    {
        &self.market_ids
    }

    /// Handles an update of a user account.
    ///
    /// Data that is not that of a user is rejected. Else it is decoded, and the
    /// user is looked up in `account_map`. The orders of an unknown user that
    /// rest in the book are new. Those of a known user are compared with what
    /// is known, unless the update is older than that.
    pub fn account_update_handler<R: Copy, M, F, C>(
        &self,
        account_map: &M,
        layout: &UserLayout<'_>,
        decode: F,
        compare_user_orders: C,
        update: &AccountUpdate<'_>,
    ) -> (events: Result<Vec<DLOBEvent<R>>, Rejection>) where
        M: AccountMapTrait<User<R>>,
        F: Fn(&[u8]) -> User<R>,
        C: Fn(&Pubkey, &User<R>, &User<R>) -> Vec<OrderDelta<R>>,

        requires
            layout.wf(),
            rejection(update.data@, *layout) is None ==> call_requires(decode, (update.data,)),
            forall|old_user: User<R>, new_user: User<R>|
                call_requires(compare_user_orders, (&update.pubkey, &old_user, &new_user)),
        ensures
            answers_update(
                account_map,
                *layout,
                decode,
                compare_user_orders,
                *update,
                events,
            ),
    {
        match check_user_data(update.data, layout) {
            Err(why) => {
                return Err(why);
            },
            Ok(()) => {},
        }
        let new_user = decode(update.data);
        let stored = account_map.account_data_and_slot(&update.pubkey);
        let stored_slot = match &stored {
            Some(known) => Some(known.slot),
            None => None,
        };
        let deltas = match (&stored, plan_user_change(stored_slot, update.slot)) {
            (Some(known), UserChange::Compare) => compare_user_orders(
                &update.pubkey,
                &known.data,
                &new_user,
            ),
            _ => Vec::new(),
        };
        Ok(events_of_user_update(update, &new_user, stored_slot, &deltas))
    }

    /// Makes the events of a new slot, given what is known of the price of each
    /// market.
    pub fn price_updates<R>(&self, new_slot: Slot, prices: &Vec<Option<i64>>) -> (events: Vec<
        DLOBEvent<R>,
    >)
        requires
            prices@.len() == self.markets().len(),
        ensures
            events@ == price_events::<R>(new_slot, self.markets(), prices@),
    {
        let mut events: Vec<DLOBEvent<R>> = Vec::new();
        let mut i: usize = 0;
        while i < self.market_ids.len()
            invariant
                i <= self.market_ids@.len(),
                prices@.len() == self.market_ids@.len(),
                events@ == price_events::<R>(
                    new_slot,
                    self.market_ids@.take(i as int),
                    prices@.take(i as int),
                ),
            decreases self.market_ids@.len() - i,
        {
            proof {
                assert(self.market_ids@.take(i + 1).drop_last() =~= self.market_ids@.take(
                    i as int,
                ));
                assert(prices@.take(i + 1).drop_last() =~= prices@.take(i as int));
            }
            let market: MarketId = self.market_ids[i];
            if let Some(price) = prices[i] {
                let oracle_price: u64 = price as u64;
                assert(oracle_price == unsigned_price(price)) by {
                    assert(price < 0 ==> price as u64 == price + 0x1_0000_0000_0000_0000)
                        by (bit_vector);
                }
                events.push(
                    DLOBEvent::SlotOrPriceUpdate {
                        slot: new_slot,
                        market_index: market.index,
                        market_type: market.kind,
                        oracle_price,
                    },
                );
            }
            i = i + 1;
        }
        assert(self.market_ids@.take(i as int) =~= self.market_ids@);
        assert(prices@.take(i as int) =~= prices@);
        events
    }

    /// Asks for the price of each market, in the order of the markets.
    fn query_prices<P: Fn(MarketId) -> Option<i64>>(&self, oracle_price: P) -> (prices: Vec<
        Option<i64>,
    >)
        requires
            forall|market: MarketId| call_requires(oracle_price, (market,)),
        ensures
            prices@.len() == self.markets().len(),
            forall|i: int|
                0 <= i < prices@.len() ==> call_ensures(
                    oracle_price,
                    (self.markets()[i],),
                    #[trigger] prices@[i],
                ),
    {
        let mut prices: Vec<Option<i64>> = Vec::new();
        let mut i: usize = 0;
        while i < self.market_ids.len()
            invariant
                i <= self.market_ids@.len(),
                prices@.len() == i,
                forall|market: MarketId| call_requires(oracle_price, (market,)),
                forall|j: int|
                    0 <= j < i ==> call_ensures(
                        oracle_price,
                        (self.market_ids@[j],),
                        #[trigger] prices@[j],
                    ),
            decreases self.market_ids@.len() - i,
        {
            prices.push(oracle_price(self.market_ids[i]));
            i = i + 1;
        }
        prices
    }

    /// Handles a new slot.
    ///
    /// This gives slot/price updates for the markets whose oracle price the
    /// client knows, and the slot to send to `slot_tx`.
    pub fn slot_update_handler<R, P: Fn(MarketId) -> Option<i64>>(
        &self,
        client_price: P,
        new_slot: Slot,
    ) -> (update: SlotUpdate<R>)
        requires
            forall|market: MarketId| call_requires(client_price, (market,)),
        ensures
            update.slot == new_slot,
            exists|prices: Seq<Option<i64>>|
                {
                    &&& prices.len() == self.markets().len()
                    &&& forall|i: int|
                        0 <= i < prices.len() ==> call_ensures(
                            client_price,
                            (self.markets()[i],),
                            #[trigger] prices[i],
                        )
                    &&& update.events@ == #[trigger] price_events::<R>(new_slot, self.markets(), prices)
                },
    {
        let prices = self.query_prices(client_price);
        SlotUpdate { events: self.price_updates(new_slot, &prices), slot: new_slot }
    }

    /// Handles a new slot with cached oracle prices (no RPC calls).
    ///
    /// This gives slot/price updates for the markets whose oracle price is in
    /// the map. Oracle prices must be synced beforehand.
    pub fn slot_update_handler_with_oracle_map<R, P: Fn(MarketId) -> Option<i64>>(
        &self,
        cached_price: P,
        new_slot: Slot,
    ) -> (events: Vec<DLOBEvent<R>>)
        requires
            forall|market: MarketId| call_requires(cached_price, (market,)),
        ensures
            exists|prices: Seq<Option<i64>>|
                {
                    &&& prices.len() == self.markets().len()
                    &&& forall|i: int|
                        0 <= i < prices.len() ==> call_ensures(
                            cached_price,
                            (self.markets()[i],),
                            #[trigger] prices[i],
                        )
                    &&& events@ == #[trigger] price_events::<R>(new_slot, self.markets(), prices)
                },
    {
        let prices = self.query_prices(cached_price);
        self.price_updates(new_slot, &prices)
    }
}

} // verus!
