//! Laws of the events that keep an order book up to date.
use vstd::prelude::*;

use crate::bytes::{first_bytes_are, DISCRIMINATOR_LEN};
use crate::dlob::builder::{
    answers_update, creations, order_events, price_event, price_events, rejection, slot_of,
    unsigned_price, user_change, AccountMapTrait, Rejection, UserChange, UserLayout,
};
use crate::dlob::event::{DLOBEvent, OrderDelta};
use crate::grpc::AccountUpdate;
use crate::types::{DataAndSlot, MarketId, Order, OrderStatus, Pubkey, Slot, User};

verus! {

/// Each change becomes one event, in its place, at the slot of the update.
pub proof fn law_one_event_per_change<R>(deltas: Seq<OrderDelta<R>>, slot: Slot)
    ensures
        order_events(deltas, slot).len() == deltas.len(),
        forall|i: int|
            0 <= i < deltas.len() ==> #[trigger] order_events(deltas, slot)[i] == (
            DLOBEvent::Order { delta: deltas[i], slot }),
{
}

/// For a user that is new, exactly the resting orders are announced, as created
/// by that user.
pub proof fn law_new_users_announce_resting_orders<R>(user: Pubkey, orders: Seq<Order<R>>)
    ensures
        forall|order: Order<R>| #[trigger]
            creations(user, orders).contains(OrderDelta::Create { user, order })
                <==> orders.contains(order) && order.is_resting(),
        forall|i: int|
            0 <= i < creations(user, orders).len() ==> exists|order: Order<R>|
                #[trigger] creations(user, orders)[i] == (OrderDelta::Create { user, order }),
        creations(user, orders).len() <= orders.len(),
{
    let resting = |order: Order<R>| order.is_resting();
    let kept = orders.filter(resting);
    let all = creations(user, orders);
    orders.lemma_filter_len(resting);
    assert forall|order: Order<R>| #[trigger]
        all.contains(OrderDelta::Create { user, order }) <==> orders.contains(order)
            && order.is_resting() by {
        if all.contains(OrderDelta::Create { user, order }) {
            let i = choose|i: int|
                0 <= i < all.len() && all[i] == (OrderDelta::Create { user, order });
            assert(kept[i] == order);
            orders.lemma_filter_pred(resting, i);
            assert(kept.contains(order));
            orders.lemma_filter_contains_rev(resting, order);
        }
        if orders.contains(order) && order.is_resting() {
            let i = choose|i: int| 0 <= i < orders.len() && orders[i] == order;
            orders.lemma_filter_contains(resting, i);
            let j = choose|j: int| 0 <= j < kept.len() && kept[j] == order;
            assert(all[j] == (OrderDelta::Create { user, order }));
        }
    }
    assert forall|i: int| 0 <= i < all.len() implies exists|order: Order<R>|
        #[trigger] all[i] == (OrderDelta::Create { user, order }) by {
        assert(all[i] == (OrderDelta::Create { user, order: kept[i] }));
    }
}

/// Every event of an update of a user is one of an order, at the slot of the
/// update.
pub proof fn law_events_are_at_the_slot_of_the_update<R, M, F, C>(
    account_map: &M,
    layout: UserLayout<'_>,
    decode: F,
    compare_user_orders: C,
    update: AccountUpdate<'_>,
    events: Result<Vec<DLOBEvent<R>>, Rejection>,
) where
    M: AccountMapTrait<User<R>>,
    F: Fn(&[u8]) -> User<R>,
    C: Fn(&Pubkey, &User<R>, &User<R>) -> Vec<OrderDelta<R>>,

    requires
        answers_update(account_map, layout, decode, compare_user_orders, update, events),
        events is Ok,
    ensures
        forall|i: int|
            0 <= i < events->Ok_0@.len() ==> (#[trigger] events->Ok_0@[i] matches DLOBEvent::Order {
                slot,
                ..
            } && slot == update.slot),
{
}

/// Whether two users have the same orders.
pub open spec fn same_orders<R>(a: User<R>, b: User<R>) -> bool {
    a.orders@ == b.orders@
}

/// Whether the same is known: nothing, or the same orders at the same slot.
pub open spec fn same_known<R>(a: Option<DataAndSlot<User<R>>>, b: Option<DataAndSlot<User<R>>>) -> bool {
    &&& slot_of(a) == slot_of(b)
    &&& a is Some ==> same_orders(a->Some_0.data, b->Some_0.data)
}

/// Handling an update again while the same is known gives the same answer: where
/// decoding the data, looking the user up and comparing equal orders each give
/// equal results, so do two calls of the handler.
pub proof fn law_repeated_updates_give_the_same_events<R, M, F, C>(
    account_map: &M,
    layout: UserLayout<'_>,
    decode: F,
    compare_user_orders: C,
    update: AccountUpdate<'_>,
    first: Result<Vec<DLOBEvent<R>>, Rejection>,
    second: Result<Vec<DLOBEvent<R>>, Rejection>,
) where
    M: AccountMapTrait<User<R>>,
    F: Fn(&[u8]) -> User<R>,
    C: Fn(&Pubkey, &User<R>, &User<R>) -> Vec<OrderDelta<R>>,

    requires
        answers_update(account_map, layout, decode, compare_user_orders, update, first),
        answers_update(account_map, layout, decode, compare_user_orders, update, second),
        forall|a: User<R>, b: User<R>| #[trigger]
            call_ensures(decode, (update.data,), a) && #[trigger] call_ensures(
                decode,
                (update.data,),
                b,
            ) ==> same_orders(a, b),
        forall|a: Option<DataAndSlot<User<R>>>, b: Option<DataAndSlot<User<R>>>| #[trigger]
            call_ensures(M::account_data_and_slot, (account_map, &update.pubkey), a)
                && #[trigger] call_ensures(
                M::account_data_and_slot,
                (account_map, &update.pubkey),
                b,
            ) ==> same_known(a, b),
        forall|
            old_a: User<R>,
            new_a: User<R>,
            a: Vec<OrderDelta<R>>,
            old_b: User<R>,
            new_b: User<R>,
            b: Vec<OrderDelta<R>>,
        | #[trigger]
            call_ensures(compare_user_orders, (&update.pubkey, &old_a, &new_a), a)
                && #[trigger] call_ensures(
                compare_user_orders,
                (&update.pubkey, &old_b, &new_b),
                b,
            ) && same_orders(old_a, old_b) && same_orders(new_a, new_b) ==> a@ == b@,
    ensures
        match first {
            Ok(events) => second is Ok && second->Ok_0@ == events@,
            Err(why) => second == Err::<Vec<DLOBEvent<R>>, Rejection>(why),
        },
{
}

/// An update is compared with what is known exactly when it is not older. One
/// at the same slot counts.
pub proof fn law_updates_that_are_compared(stored_slot: Slot, update_slot: Slot)
    ensures
        user_change(Some(stored_slot), update_slot) is Compare <==> stored_slot <= update_slot,
        user_change(Some(stored_slot), update_slot) is Stale <==> stored_slot > update_slot,
        user_change(None, update_slot) is FirstSeen,
{
}

/// Data is taken for a user exactly when it is long enough and begins with the
/// discriminator of users; length is looked at first.
pub proof fn law_data_that_is_taken(data: Seq<u8>, layout: UserLayout<'_>)
    requires
        layout.wf(),
        data.len() <= usize::MAX,
    ensures
        rejection(data, layout) is None <==> data.len() >= DISCRIMINATOR_LEN + layout.size
            && data.take(DISCRIMINATOR_LEN as int) == layout.discriminator@,
        rejection(data, layout) matches Some(Rejection::TooSmall { expected, actual }) ==> actual
            < expected && actual == data.len(),
        rejection(data, layout) is None ==> layout.discriminator@.len() == DISCRIMINATOR_LEN,
{
}

/// How many prices are known.
pub open spec fn known(prices: Seq<Option<i64>>) -> nat
    decreases prices.len(),
{
    if prices.len() == 0 {
        0
    } else {
        known(prices.drop_last()) + if prices.last() is Some {
            1nat
        } else {
            0nat
        }
    }
}

/// A new slot gives one event for each market whose price is known and none for
/// the others. Every event is at the new slot.
pub proof fn law_one_event_per_known_price<R>(
    slot: Slot,
    markets: Seq<MarketId>,
    prices: Seq<Option<i64>>,
)
    requires
        prices.len() == markets.len(),
    ensures
        price_events::<R>(slot, markets, prices).len() == known(prices),
        forall|i: int|
            #![trigger markets[i]]
            #![trigger prices[i]]
            0 <= i < markets.len() && prices[i] is Some ==> price_events::<R>(
                slot,
                markets,
                prices,
            ).contains(price_event::<R>(slot, markets[i], prices[i]->Some_0)),
        forall|event: DLOBEvent<R>| #[trigger]
            price_events(slot, markets, prices).contains(event) ==> exists|i: int|
                0 <= i < markets.len() && prices[i] is Some && event == price_event::<R>(
                    slot,
                    #[trigger] markets[i],
                    prices[i]->Some_0,
                ),
    decreases markets.len(),
{
    let events = price_events::<R>(slot, markets, prices);
    if markets.len() > 0 {
        let m = markets.drop_last();
        let p = prices.drop_last();
        let before = price_events::<R>(slot, m, p);
        law_one_event_per_known_price::<R>(slot, m, p);
        let last = markets.len() - 1;
        assert forall|i: int|
            #![trigger markets[i]]
            #![trigger prices[i]]
            0 <= i < markets.len() && prices[i] is Some implies events.contains(
            price_event::<R>(slot, markets[i], prices[i]->Some_0),
        ) by {
            let event = price_event::<R>(slot, markets[i], prices[i]->Some_0);
            if i < last {
                assert(m[i] == markets[i] && p[i] == prices[i]);
                assert(before.contains(event));
                let j = choose|j: int| 0 <= j < before.len() && before[j] == event;
                assert(events[j] == event);
            } else {
                assert(events[before.len() as int] == event);
            }
        }
        assert forall|event: DLOBEvent<R>| #[trigger] events.contains(event) implies exists|i: int|
            0 <= i < markets.len() && prices[i] is Some && event == price_event::<R>(
                slot,
                #[trigger] markets[i],
                prices[i]->Some_0,
            ) by {
            let j = choose|j: int| 0 <= j < events.len() && events[j] == event;
            if j < before.len() {
                assert(before[j] == event);
                assert(before.contains(event));
                let i = choose|i: int|
                    0 <= i < m.len() && p[i] is Some && event == price_event::<R>(
                        slot,
                        #[trigger] m[i],
                        p[i]->Some_0,
                    );
                assert(m[i] == markets[i] && p[i] == prices[i]);
            } else {
                assert(event == price_event::<R>(slot, markets[last], prices[last]->Some_0));
            }
        }
    }
}

/// Whether indices come in ascending order, each at most once.
pub open spec fn ascending(picked: Seq<int>) -> bool {
    forall|j: int, k: int| 0 <= j < k < picked.len() ==> picked[j] < picked[k]
}

/// For a user that is seen for the first time, an order is announced exactly when
/// its status is `Open` and more of its base asset is asked for than was filled.
/// The orders that are announced, at the indices `picked`, keep their order and
/// their number, and each event carries the very order.
pub proof fn law_open_unfilled_orders_are_announced<R>(
    user: Pubkey,
    orders: Seq<Order<R>>,
    slot: Slot,
) -> (picked: Seq<int>)
    ensures
        ascending(picked),
        forall|i: int|
            #![trigger picked.contains(i)]
            #![trigger orders[i]]
            picked.contains(i) <==> 0 <= i < orders.len() && orders[i].status == OrderStatus::Open
                && orders[i].base_asset_amount > orders[i].base_asset_amount_filled,
        order_events(creations(user, orders), slot).len() == picked.len(),
        forall|k: int|
            0 <= k < picked.len() ==> #[trigger] order_events(creations(user, orders), slot)[k] == (
            DLOBEvent::Order { delta: OrderDelta::Create { user, order: orders[picked[k]] }, slot }),
        forall|i: int|
            0 <= i < orders.len() ==> (order_events(creations(user, orders), slot).contains(
                DLOBEvent::Order {
                    delta: OrderDelta::Create { user, order: #[trigger] orders[i] },
                    slot,
                },
            ) <==> orders[i].status == OrderStatus::Open && orders[i].base_asset_amount
                > orders[i].base_asset_amount_filled),
    decreases orders.len(),
{
    reveal(Seq::filter);
    let events = order_events(creations(user, orders), slot);
    let picked = if orders.len() == 0 {
        Seq::<int>::empty()
    } else {
        let rest = orders.drop_last();
        let last = orders.last();
        let n = rest.len() as int;
        let before = law_open_unfilled_orders_are_announced(user, rest, slot);
        let earlier = order_events(creations(user, rest), slot);
        assert forall|i: int| before.contains(i) implies 0 <= i < n by {}
        if last.status == OrderStatus::Open && last.base_asset_amount
            > last.base_asset_amount_filled {
            let picked = before.push(n);
            assert(events =~= earlier.push(
                DLOBEvent::Order { delta: OrderDelta::Create { user, order: last }, slot },
            ));
            assert forall|j: int, k: int| 0 <= j < k < picked.len() implies picked[j]
                < picked[k] by {
                assert(before.contains(before[j]));
            }
            assert forall|i: int| #[trigger] picked.contains(i) <==> before.contains(i) || i
                == n by {
                if before.contains(i) {
                    let j = choose|j: int| 0 <= j < before.len() && before[j] == i;
                    assert(picked[j] == i);
                }
                assert(picked[before.len() as int] == n);
            }
            assert forall|k: int| 0 <= k < picked.len() implies #[trigger] events[k] == (
            DLOBEvent::Order {
                delta: OrderDelta::Create { user, order: orders[picked[k]] },
                slot,
            }) by {
                if k < before.len() {
                    assert(before.contains(before[k]));
                    assert(events[k] == earlier[k]);
                }
            }
            picked
        } else {
            assert(events =~= earlier);
            assert forall|k: int| 0 <= k < before.len() implies #[trigger] events[k] == (
            DLOBEvent::Order {
                delta: OrderDelta::Create { user, order: orders[before[k]] },
                slot,
            }) by {
                assert(before.contains(before[k]));
                assert(events[k] == earlier[k]);
            }
            before
        }
    };
    assert forall|i: int|
        #![trigger picked.contains(i)]
        #![trigger orders[i]]
        picked.contains(i) <==> 0 <= i < orders.len() && orders[i].status == OrderStatus::Open
            && orders[i].base_asset_amount > orders[i].base_asset_amount_filled by {
        if orders.len() > 0 && 0 <= i < orders.len() - 1 {
            assert(orders.drop_last()[i] == orders[i]);
        }
    }
    assert forall|i: int| 0 <= i < orders.len() implies (events.contains(
        DLOBEvent::Order { delta: OrderDelta::Create { user, order: #[trigger] orders[i] }, slot },
    ) <==> orders[i].status == OrderStatus::Open && orders[i].base_asset_amount
        > orders[i].base_asset_amount_filled) by {
        let event = DLOBEvent::Order { delta: OrderDelta::Create { user, order: orders[i] }, slot };
        if events.contains(event) {
            let k = choose|k: int| 0 <= k < events.len() && events[k] == event;
            assert(picked.contains(picked[k]));
        }
        if picked.contains(i) {
            let k = choose|k: int| 0 <= k < picked.len() && picked[k] == i;
            assert(events[k] == event);
        }
    }
    picked
}

/// An update of a user whom the account map does not know: where its data is that
/// of a user, the open orders that are not filled are announced at the slot of
/// the update, in their order.
pub proof fn law_first_seen_users_are_announced<R, M, F, C>(
    account_map: &M,
    layout: UserLayout<'_>,
    decode: F,
    compare_user_orders: C,
    update: AccountUpdate<'_>,
    events: Result<Vec<DLOBEvent<R>>, Rejection>,
    orders: Seq<Order<R>>,
) -> (picked: Seq<int>) where
    M: AccountMapTrait<User<R>>,
    F: Fn(&[u8]) -> User<R>,
    C: Fn(&Pubkey, &User<R>, &User<R>) -> Vec<OrderDelta<R>>,

    requires
        answers_update(account_map, layout, decode, compare_user_orders, update, events),
        update.data@.len() >= 8 + layout.size,
        update.data@.take(8) == layout.discriminator@,
        forall|user: User<R>| #[trigger]
            call_ensures(decode, (update.data,), user) ==> user.orders@ == orders,
        forall|stored: Option<DataAndSlot<User<R>>>| #[trigger]
            call_ensures(M::account_data_and_slot, (account_map, &update.pubkey), stored)
                ==> stored is None,
    ensures
        events is Ok,
        ascending(picked),
        forall|i: int|
            #![trigger picked.contains(i)]
            #![trigger orders[i]]
            picked.contains(i) <==> 0 <= i < orders.len() && orders[i].status == OrderStatus::Open
                && orders[i].base_asset_amount > orders[i].base_asset_amount_filled,
        events->Ok_0@.len() == picked.len(),
        forall|k: int|
            0 <= k < picked.len() ==> #[trigger] events->Ok_0@[k] == (DLOBEvent::Order {
                delta: OrderDelta::Create { user: update.pubkey, order: orders[picked[k]] },
                slot: update.slot,
            }),
{
    let picked = law_open_unfilled_orders_are_announced(update.pubkey, orders, update.slot);
    assert(events->Ok_0@ == order_events(creations(update.pubkey, orders), update.slot));
    picked
}

/// An update of a user whom the account map knows as of `known_slot`. An older
/// update gives nothing. Any other gives one event, at its slot, for each change
/// that the comparison of what is known with the update found, in their order.
pub proof fn law_known_users_are_compared<R, M, F, C>(
    account_map: &M,
    layout: UserLayout<'_>,
    decode: F,
    compare_user_orders: C,
    update: AccountUpdate<'_>,
    events: Result<Vec<DLOBEvent<R>>, Rejection>,
    known_slot: Slot,
) where
    M: AccountMapTrait<User<R>>,
    F: Fn(&[u8]) -> User<R>,
    C: Fn(&Pubkey, &User<R>, &User<R>) -> Vec<OrderDelta<R>>,

    requires
        answers_update(account_map, layout, decode, compare_user_orders, update, events),
        update.data@.len() >= 8 + layout.size,
        update.data@.take(8) == layout.discriminator@,
        forall|stored: Option<DataAndSlot<User<R>>>| #[trigger]
            call_ensures(M::account_data_and_slot, (account_map, &update.pubkey), stored) ==> (
            stored matches Some(known) && known.slot == known_slot),
    ensures
        events is Ok,
        known_slot > update.slot ==> events->Ok_0@.len() == 0,
        known_slot <= update.slot ==> exists|
            stored: Option<DataAndSlot<User<R>>>,
            new_user: User<R>,
            deltas: Vec<OrderDelta<R>>,
        |
            {
                &&& #[trigger] call_ensures(
                    M::account_data_and_slot,
                    (account_map, &update.pubkey),
                    stored,
                )
                &&& #[trigger] call_ensures(decode, (update.data,), new_user)
                &&& #[trigger] call_ensures(
                    compare_user_orders,
                    (&update.pubkey, &stored->Some_0.data, &new_user),
                    deltas,
                )
                &&& events->Ok_0@.len() == deltas@.len()
                &&& forall|i: int|
                    0 <= i < deltas@.len() ==> #[trigger] events->Ok_0@[i] == (DLOBEvent::Order {
                        delta: deltas@[i],
                        slot: update.slot,
                    })
            },
{
}

/// Data that is shorter than a discriminator of eight bytes and a user is
/// rejected with both sizes. Data that is long enough is rejected exactly when
/// its first eight bytes are not the discriminator. Nothing else is rejected.
pub proof fn law_rejected_updates<R, M, F, C>(
    account_map: &M,
    layout: UserLayout<'_>,
    decode: F,
    compare_user_orders: C,
    update: AccountUpdate<'_>,
    events: Result<Vec<DLOBEvent<R>>, Rejection>,
) where
    M: AccountMapTrait<User<R>>,
    F: Fn(&[u8]) -> User<R>,
    C: Fn(&Pubkey, &User<R>, &User<R>) -> Vec<OrderDelta<R>>,

    requires
        answers_update(account_map, layout, decode, compare_user_orders, update, events),
        8 + layout.size <= usize::MAX,
        update.data@.len() <= usize::MAX,
    ensures
        events is Ok <==> update.data@.len() >= 8 + layout.size && update.data@.take(8)
            == layout.discriminator@,
        update.data@.len() < 8 + layout.size ==> (events matches Err(
            Rejection::TooSmall { expected, actual },
        ) && expected == 8 + layout.size && actual == update.data@.len()),
        update.data@.len() >= 8 + layout.size && update.data@.take(8) != layout.discriminator@
            ==> events == Err::<Vec<DLOBEvent<R>>, Rejection>(Rejection::WrongDiscriminator),
{
}

/// A layout is well formed exactly when the size of an account with it can be
/// counted.
pub proof fn law_layouts(layout: UserLayout<'_>)
    ensures
        layout.wf() <==> 8 + layout.size <= usize::MAX,
{
}

/// The first bytes of data are compared one by one, and the prefix has to have
/// exactly as many.
pub proof fn law_first_bytes(data: Seq<u8>, len: nat, prefix: Seq<u8>)
    ensures
        first_bytes_are(data, len, prefix) <==> {
            &&& data.len() >= len
            &&& prefix.len() == len
            &&& forall|i: int| 0 <= i < len ==> #[trigger] data[i] == prefix[i]
        },
{
    if first_bytes_are(data, len, prefix) {
        assert forall|i: int| 0 <= i < len implies #[trigger] data[i] == prefix[i] by {
            assert(data.take(len as int)[i] == prefix[i]);
        }
    }
    if data.len() >= len && prefix.len() == len && forall|i: int|
        0 <= i < len ==> #[trigger] data[i] == prefix[i] {
        assert(data.take(len as int) =~= prefix);
    }
}

/// A new slot tells the book the price of each market whose price is known, and
/// of no other. The markets that are told of, at the indices `picked`, keep their
/// order. Each event carries the new slot, the index and the kind of its market,
/// and the price of that market modulo 2^64.
pub proof fn law_prices_go_to_their_markets<R>(
    slot: Slot,
    markets: Seq<MarketId>,
    prices: Seq<Option<i64>>,
) -> (picked: Seq<int>)
    requires
        prices.len() == markets.len(),
    ensures
        ascending(picked),
        forall|i: int|
            #![trigger picked.contains(i)]
            #![trigger prices[i]]
            picked.contains(i) <==> 0 <= i < prices.len() && prices[i] is Some,
        price_events::<R>(slot, markets, prices).len() == picked.len(),
        forall|k: int|
            0 <= k < picked.len() ==> (#[trigger] price_events::<R>(slot, markets, prices)[k] matches
                DLOBEvent::SlotOrPriceUpdate {
                slot: event_slot,
                market_index,
                market_type,
                oracle_price,
            } && event_slot == slot && market_index == markets[picked[k]].index && market_type
                == markets[picked[k]].kind && oracle_price as int == (prices[picked[k]]->Some_0
                as int) % 0x1_0000_0000_0000_0000),
    decreases markets.len(),
{
    let events = price_events::<R>(slot, markets, prices);
    let picked = if markets.len() == 0 {
        Seq::<int>::empty()
    } else {
        let m = markets.drop_last();
        let p = prices.drop_last();
        let n = m.len() as int;
        let before = law_prices_go_to_their_markets::<R>(slot, m, p);
        let earlier = price_events::<R>(slot, m, p);
        assert forall|i: int| before.contains(i) implies 0 <= i < n by {}
        let picked = if prices.last() is Some {
            before.push(n)
        } else {
            before
        };
        assert forall|j: int, k: int| 0 <= j < k < picked.len() implies picked[j] < picked[k] by {
            assert(before.contains(before[j]));
        }
        assert forall|i: int| #[trigger] picked.contains(i) <==> before.contains(i) || (i == n
            && prices.last() is Some) by {
            if before.contains(i) {
                let j = choose|j: int| 0 <= j < before.len() && before[j] == i;
                assert(picked[j] == i);
            }
            if prices.last() is Some {
                assert(picked[before.len() as int] == n);
            }
        }
        assert forall|k: int| 0 <= k < picked.len() implies (#[trigger] events[k] matches
            DLOBEvent::SlotOrPriceUpdate {
            slot: event_slot,
            market_index,
            market_type,
            oracle_price,
        } && event_slot == slot && market_index == markets[picked[k]].index && market_type
            == markets[picked[k]].kind && oracle_price as int == (prices[picked[k]]->Some_0 as int)
            % 0x1_0000_0000_0000_0000) by {
            if k < before.len() {
                assert(before.contains(before[k]));
                assert(events[k] == earlier[k]);
                assert(m[before[k]] == markets[before[k]] && p[before[k]] == prices[before[k]]);
            }
        }
        picked
    };
    assert forall|i: int|
        #![trigger picked.contains(i)]
        #![trigger prices[i]]
        picked.contains(i) <==> 0 <= i < prices.len() && prices[i] is Some by {
        if markets.len() > 0 && 0 <= i < prices.len() - 1 {
            assert(prices.drop_last()[i] == prices[i]);
        }
    }
    picked
}

/// A price that is not negative is passed on as it is, and no two prices are
/// passed on as the same number.
pub proof fn law_prices_are_told_apart(a: i64, b: i64)
    ensures
        a >= 0 ==> unsigned_price(a) == a,
        a < 0 ==> unsigned_price(a) == a + 0x1_0000_0000_0000_0000,
        unsigned_price(a) == unsigned_price(b) ==> a == b,
{
}

} // verus!
