//! Laws of filters, messages and subscriptions.
use vstd::prelude::*;

use crate::bytes::{first_bytes_are, DISCRIMINATOR_LEN};
use crate::types::{Pubkey, Slot};
use crate::zmq::error::ZmqError;
use crate::zmq::filter::{
    base58_bytes, base64_bytes, holds_at, no_criteria, AccountFilter, ByteComparison,
    FilterCriteria, Memcmp, MemcmpEncodedBytes,
};
use crate::zmq::message::{
    committed_status, CommitmentLevel, Message, MessageAccAndTx, MessageAccount, MessageBlock,
    MessageBlockMeta, MessageEntry, MessageSlot, MessageTick, MessageTransaction, MessageType,
    SlotStatus,
};
use crate::zmq::opts::{
    configures, default_opts, states_of, then_set, SocketOption, SocketType, ZmqConnectionOpts,
};
use crate::zmq::receive::{later, selected_hooks, Received};
use crate::zmq::subscription::{backoff, Action, Channel, SubscriptionState, MAX_RETRIES};

verus! {

/// A filter without criteria selects every account in full mode and none in
/// partial mode.
pub proof fn law_empty_filters(pubkey: Pubkey, data: Seq<u8>)
    ensures
        no_criteria(true).selects(pubkey, data),
        !no_criteria(false).selects(pubkey, data),
        no_criteria(true).is_full,
        !no_criteria(false).is_full,
        forall|is_full: bool|
            (#[trigger] no_criteria(is_full)).discriminator is None && no_criteria(is_full).memcmp
                is None && no_criteria(is_full).accounts is None,
{
}

/// What filters select, over all criteria, keys and data.
///
/// A discriminator asks for data of at least eight bytes whose first eight are
/// its own. A key set asks for the key of the account. A comparison asks for a
/// valid pattern, of which every byte stands in the data, counted from the
/// offset. A full filter selects what every criterion that is set asks for, a
/// partial one what at least one of them asks for.
pub proof fn law_what_filters_select(
    discriminator: Option<Seq<u8>>,
    accounts: Option<Set<Pubkey>>,
    memcmp: Option<Memcmp>,
    is_full: bool,
    pubkey: Pubkey,
    data: Seq<u8>,
)
    ensures
        ({
            let comparison = match memcmp {
                Some(m) => Some(m@),
                None => None,
            };
            let criteria = FilterCriteria { discriminator, memcmp: comparison, accounts, is_full };
            let begins = discriminator matches Some(d) && data.len() >= 8 && data.take(8) == d;
            let listed = accounts matches Some(keys) && keys.contains(pubkey);
            let pattern = match memcmp {
                Some(m) => match m.bytes {
                    MemcmpEncodedBytes::Base58(text) => base58_bytes(text@),
                    MemcmpEncodedBytes::Base64(text) => base64_bytes(text@),
                    MemcmpEncodedBytes::Bytes(bytes) => Some(bytes@),
                },
                None => None,
            };
            let offset = match memcmp {
                Some(m) => 0 + m.offset,
                None => 0int,
            };
            let holds = pattern matches Some(p) && offset + p.len() <= data.len() && data.subrange(
                offset,
                offset + p.len(),
            ) == p;
            criteria.selects(pubkey, data) <==> if is_full {
                &&& discriminator is Some ==> begins
                &&& accounts is Some ==> listed
                &&& memcmp is Some ==> holds
            } else {
                begins || listed || (memcmp is Some && holds)
            }
        }),
{
}

/// A comparison alone selects, in either mode, exactly the data, of any length,
/// that holds each byte of its pattern at the offset.
pub proof fn law_comparison_alone(
    offset: usize,
    bytes: Vec<u8>,
    is_full: bool,
    pubkey: Pubkey,
    data: Seq<u8>,
)
    ensures
        ({
            let memcmp = Memcmp { offset, bytes: MemcmpEncodedBytes::Bytes(bytes) };
            (FilterCriteria {
                discriminator: None,
                memcmp: Some(memcmp@),
                accounts: None,
                is_full,
            }).selects(pubkey, data) <==> offset + bytes@.len() <= data.len() && forall|i: int|
                0 <= i < bytes@.len() ==> data[offset + i] == #[trigger] bytes@[i]
        }),
{
    let start = 0 + offset;
    if start + bytes@.len() <= data.len() {
        let part = data.subrange(start, start + bytes@.len());
        if part == bytes@ {
            assert forall|i: int| 0 <= i < bytes@.len() implies data[offset + i]
                == #[trigger] bytes@[i] by {
                assert(part[i] == bytes@[i]);
            }
        }
        if forall|i: int| 0 <= i < bytes@.len() ==> data[offset + i] == #[trigger] bytes@[i] {
            assert(part =~= bytes@);
        }
    }
}

/// A comparison with encoded bytes is one with what they decode to, and matches
/// nothing where they do not decode.
pub proof fn law_encoded_comparisons(offset: usize, text: String, pattern: Vec<u8>, data: Seq<u8>)
    ensures
        ({
            let base58 = Memcmp { offset, bytes: MemcmpEncodedBytes::Base58(text) };
            let base64 = Memcmp { offset, bytes: MemcmpEncodedBytes::Base64(text) };
            let raw = Memcmp { offset, bytes: MemcmpEncodedBytes::Bytes(pattern) };
            &&& base58_bytes(text@) == Some(pattern@) ==> base58@.accepts(data) == raw@.accepts(
                data,
            )
            &&& base64_bytes(text@) == Some(pattern@) ==> base64@.accepts(data) == raw@.accepts(
                data,
            )
            &&& base58_bytes(text@) is None ==> !base58@.accepts(data)
            &&& base64_bytes(text@) is None ==> !base64@.accepts(data)
        }),
{
}

/// A discriminator alone selects, in either mode, exactly the data of at least
/// eight bytes whose first eight are the discriminator. A key set alone selects
/// exactly the accounts whose key it holds, whatever their data.
pub proof fn law_discriminator_or_keys_alone(
    discriminator: Seq<u8>,
    keys: Set<Pubkey>,
    is_full: bool,
    pubkey: Pubkey,
    data: Seq<u8>,
)
    ensures
        (FilterCriteria {
            discriminator: Some(discriminator),
            memcmp: None,
            accounts: None,
            is_full,
        }).selects(pubkey, data) <==> data.len() >= 8 && data.take(8) == discriminator,
        (FilterCriteria {
            discriminator: None,
            memcmp: None,
            accounts: Some(keys),
            is_full,
        }).selects(pubkey, data) <==> keys.contains(pubkey),
{
}

/// Where it is given whether the comparison matches, that takes the place of the
/// comparison, and the other criteria count as ever.
pub proof fn law_given_comparisons(
    criteria: FilterCriteria,
    pubkey: Pubkey,
    data: Seq<u8>,
    matched: bool,
)
    ensures
        ({
            let begins = criteria.discriminator matches Some(d) && data.len() >= 8 && data.take(8)
                == d;
            let listed = criteria.accounts matches Some(keys) && keys.contains(pubkey);
            criteria.decides(pubkey, data, matched) <==> if criteria.is_full {
                &&& criteria.discriminator is Some ==> begins
                &&& criteria.accounts is Some ==> listed
                &&& criteria.memcmp is Some ==> matched
            } else {
                begins || listed || (criteria.memcmp is Some && matched)
            }
        }),
{
}

/// What a full filter selects, the partial filter with the same criteria
/// selects too, if it has any criterion.
pub proof fn law_full_is_stricter_than_partial(
    criteria: FilterCriteria,
    pubkey: Pubkey,
    data: Seq<u8>,
)
    requires
        criteria.discriminator is Some || criteria.memcmp is Some || criteria.accounts is Some,
        (FilterCriteria { is_full: true, ..criteria }).selects(pubkey, data),
    ensures
        (FilterCriteria { is_full: false, ..criteria }).selects(pubkey, data),
{
}

/// Setting a criterion that was not set can only take accounts away from a full
/// filter, and can only add accounts to a partial one.
pub proof fn law_criteria_narrow_full_and_widen_partial(
    criteria: FilterCriteria,
    discriminator: Seq<u8>,
    accounts: Set<Pubkey>,
    memcmp: ByteComparison,
    pubkey: Pubkey,
    data: Seq<u8>,
)
    ensures
        criteria.discriminator is None ==> {
            let more = FilterCriteria { discriminator: Some(discriminator), ..criteria };
            if criteria.is_full {
                more.selects(pubkey, data) ==> criteria.selects(pubkey, data)
            } else {
                criteria.selects(pubkey, data) ==> more.selects(pubkey, data)
            }
        },
        criteria.accounts is None ==> {
            let more = FilterCriteria { accounts: Some(accounts), ..criteria };
            if criteria.is_full {
                more.selects(pubkey, data) ==> criteria.selects(pubkey, data)
            } else {
                criteria.selects(pubkey, data) ==> more.selects(pubkey, data)
            }
        },
        criteria.memcmp is None ==> {
            let more = FilterCriteria { memcmp: Some(memcmp), ..criteria };
            if criteria.is_full {
                more.selects(pubkey, data) ==> criteria.selects(pubkey, data)
            } else {
                criteria.selects(pubkey, data) ==> more.selects(pubkey, data)
            }
        },
{
}

/// Criteria are set independently: the order in which they are set does not
/// matter, and what was set last stands.
pub proof fn law_criteria_are_set_independently(
    criteria: FilterCriteria,
    discriminator: Seq<u8>,
    other_discriminator: Seq<u8>,
    accounts: Set<Pubkey>,
    other_accounts: Set<Pubkey>,
    memcmp: ByteComparison,
    other_memcmp: ByteComparison,
)
    ensures
        ({
            let d = FilterCriteria { discriminator: Some(discriminator), ..criteria };
            let a = FilterCriteria { accounts: Some(accounts), ..criteria };
            let m = FilterCriteria { memcmp: Some(memcmp), ..criteria };
            &&& (FilterCriteria { accounts: Some(accounts), ..d }) == (FilterCriteria {
                discriminator: Some(discriminator),
                ..a
            })
            &&& (FilterCriteria { memcmp: Some(memcmp), ..d }) == (FilterCriteria {
                discriminator: Some(discriminator),
                ..m
            })
            &&& (FilterCriteria { memcmp: Some(memcmp), ..a }) == (FilterCriteria {
                accounts: Some(accounts),
                ..m
            })
            &&& (FilterCriteria { discriminator: Some(other_discriminator), ..d }) == (
            FilterCriteria { discriminator: Some(other_discriminator), ..criteria })
            &&& (FilterCriteria { accounts: Some(other_accounts), ..a }) == (FilterCriteria {
                accounts: Some(other_accounts),
                ..criteria
            })
            &&& (FilterCriteria { memcmp: Some(other_memcmp), ..m }) == (FilterCriteria {
                memcmp: Some(other_memcmp),
                ..criteria
            })
        }),
{
}

/// A discriminator of the right length selects the accounts that a comparison
/// with its bytes at the start of the data selects. One of any other length
/// selects none.
pub proof fn law_discriminator_is_a_comparison_at_the_start(
    discriminator: Seq<u8>,
    data: Seq<u8>,
)
    ensures
        discriminator.len() == DISCRIMINATOR_LEN ==> (first_bytes_are(
            data,
            DISCRIMINATOR_LEN as nat,
            discriminator,
        ) <==> holds_at(data, 0, discriminator)),
        discriminator.len() != DISCRIMINATOR_LEN ==> !first_bytes_are(
            data,
            DISCRIMINATOR_LEN as nat,
            discriminator,
        ),
{
    if data.len() >= DISCRIMINATOR_LEN {
        assert(data.take(DISCRIMINATOR_LEN as int) =~= data.subrange(0, DISCRIMINATOR_LEN as int));
    }
}

/// Of the hooks that were added, exactly those are called whose filter selects
/// the account, each once and in the order in which they were added.
pub proof fn law_selected_hooks<A>(hooks: Seq<(AccountFilter, A)>, pubkey: Pubkey, data: Seq<u8>)
    requires
        hooks.len() <= usize::MAX,
    ensures
        forall|i: usize|
            #[trigger] selected_hooks(hooks, pubkey, data).contains(i) <==> i < hooks.len()
                && hooks[i as int].0@.selects(pubkey, data),
        forall|j: int, k: int|
            0 <= j < k < selected_hooks(hooks, pubkey, data).len() ==> selected_hooks(
                hooks,
                pubkey,
                data,
            )[j] < selected_hooks(hooks, pubkey, data)[k],
    decreases hooks.len(),
{
    if hooks.len() > 0 {
        let rest = hooks.drop_last();
        let before = selected_hooks(rest, pubkey, data);
        let all = selected_hooks(hooks, pubkey, data);
        let last = (hooks.len() - 1) as usize;
        law_selected_hooks(rest, pubkey, data);
        assert forall|j: int| 0 <= j < before.len() implies before[j] < last by {
            assert(before.contains(before[j]));
        }
        assert forall|i: usize|
            #[trigger] all.contains(i) <==> i < hooks.len() && hooks[i as int].0@.selects(
                pubkey,
                data,
            ) by {
            if i < last {
                assert(rest[i as int] == hooks[i as int]);
            }
            if before.contains(i) {
                let j = choose|j: int| 0 <= j < before.len() && before[j] == i;
                assert(all[j] == i);
            }
            if all.contains(i) {
                let j = choose|j: int| 0 <= j < all.len() && all[j] == i;
                if j < before.len() {
                    assert(before[j] == i);
                }
            }
            if i == last && hooks.last().0@.selects(pubkey, data) {
                assert(all[before.len() as int] == last);
            }
        }
    }
}

/// A report to a subscription: of a step of setting its sockets up, or of a
/// socket that was read.
pub enum Report {
    Setup(Result<(), String>),
    Polled(Received),
}

/// Whether a report is one of what the subscription was about to do.
pub open spec fn expected(state: SubscriptionState, report: Report) -> bool {
    match report {
        Report::Setup(_) => state.next.is_setup(),
        Report::Polled(_) => state.next is Poll,
    }
}

/// The state after one report.
pub open spec fn advance(state: SubscriptionState, report: Report) -> SubscriptionState {
    match report {
        Report::Setup(result) => state.after_setup(result),
        Report::Polled(received) => state.after_poll(received),
    }
}

/// The state after a course of reports.
pub open spec fn run(state: SubscriptionState, reports: Seq<Report>) -> SubscriptionState
    decreases reports.len(),
{
    if reports.len() == 0 {
        state
    } else {
        advance(run(state, reports.drop_last()), reports.last())
    }
}

/// Whether each report of a course is of what was due when it came.
pub open spec fn is_course(state: SubscriptionState, reports: Seq<Report>) -> bool
    decreases reports.len(),
{
    reports.len() > 0 ==> {
        &&& is_course(state, reports.drop_last())
        &&& expected(run(state, reports.drop_last()), reports.last())
    }
}

/// Whatever is reported, a subscription stays well formed: it is closed exactly
/// when the attempts are used up, and then the error that it shows is one of a
/// socket or of connecting.
pub proof fn law_every_state_is_well_formed(state: SubscriptionState, reports: Seq<Report>)
    requires
        state.wf(),
        is_course(state, reports),
    ensures
        run(state, reports).wf(),
        run(state, reports).next is Close <==> run(state, reports).retry_count == MAX_RETRIES,
        run(state, reports).next is Close ==> (run(state, reports).last_error matches Some(error)
            && (error is Socket || error is Connect)),
    decreases reports.len(),
{
    if reports.len() > 0 {
        law_every_state_is_well_formed(state, reports.drop_last());
    }
}

/// A closed subscription expects no further report.
pub proof fn law_closed_is_final(state: SubscriptionState, report: Report)
    requires
        state.next is Close,
    ensures
        !expected(state, report),
{
}

/// The slots that the slot callback is called with in a course.
pub open spec fn notified(state: SubscriptionState, reports: Seq<Report>) -> Seq<Slot>
    decreases reports.len(),
{
    if reports.len() == 0 {
        Seq::empty()
    } else {
        let before = notified(state, reports.drop_last());
        let reached = run(state, reports.drop_last());
        match (reached.next, reports.last()) {
            (
                Action::Poll(Channel::Slot),
                Report::Polled(Received::Message(Message::Slot(msg))),
            ) => if msg.slot > reached.latest_slot {
                before.push(msg.slot)
            } else {
                before
            },
            _ => before,
        }
    }
}

/// The latest slot never falls.
pub proof fn law_latest_slot_never_falls(state: SubscriptionState, reports: Seq<Report>)
    ensures
        run(state, reports).latest_slot >= state.latest_slot,
    decreases reports.len(),
{
    if reports.len() > 0 {
        law_latest_slot_never_falls(state, reports.drop_last());
    }
}

/// The slot callback sees each slot at most once, in ascending order, and none
/// that is later than the latest slot.
pub proof fn law_notified_slots_ascend(state: SubscriptionState, reports: Seq<Report>)
    ensures
        forall|j: int, k: int|
            0 <= j < k < notified(state, reports).len() ==> notified(state, reports)[j] < notified(
                state,
                reports,
            )[k],
        forall|j: int|
            0 <= j < notified(state, reports).len() ==> state.latest_slot < #[trigger] notified(
                state,
                reports,
            )[j] <= run(state, reports).latest_slot,
    decreases reports.len(),
{
    if reports.len() > 0 {
        let rest = reports.drop_last();
        law_notified_slots_ascend(state, rest);
        law_latest_slot_never_falls(state, rest);
        let reached = run(state, rest);
        let before = notified(state, rest);
        let all = notified(state, reports);
        assert(run(state, reports).latest_slot >= reached.latest_slot);
        if all != before {
            let slot = all.last();
            assert(all =~= before.push(slot));
            assert(reached.latest_slot < slot == run(state, reports).latest_slot);
        }
        assert forall|j: int| 0 <= j < all.len() implies state.latest_slot < #[trigger] all[j]
            <= run(state, reports).latest_slot by {
            if j < before.len() {
                assert(all[j] == before[j]);
            }
        }
        assert forall|j: int, k: int| 0 <= j < k < all.len() implies all[j] < all[k] by {
            assert(all[j] == before[j]);
            if k < before.len() {
                assert(all[k] == before[k]);
            }
        }
    }
}

/// The slots that count towards the latest one in a course: those of account
/// messages on the account socket and of slot messages on the slot socket.
pub open spec fn counted(state: SubscriptionState, reports: Seq<Report>) -> Set<Slot>
    decreases reports.len(),
{
    if reports.len() == 0 {
        Set::empty()
    } else {
        let before = counted(state, reports.drop_last());
        match (run(state, reports.drop_last()).next, reports.last()) {
            (
                Action::Poll(Channel::Account),
                Report::Polled(Received::Message(Message::Account(msg))),
            ) => before.insert(msg.slot),
            (
                Action::Poll(Channel::Slot),
                Report::Polled(Received::Message(Message::Slot(msg))),
            ) => before.insert(msg.slot),
            _ => before,
        }
    }
}

/// The latest slot is the greatest of those that counted and of the one that
/// the course began with.
pub proof fn law_latest_slot_is_the_greatest(state: SubscriptionState, reports: Seq<Report>)
    ensures
        counted(state, reports).insert(state.latest_slot).contains(
            run(state, reports).latest_slot,
        ),
        forall|slot: Slot| #[trigger]
            counted(state, reports).contains(slot) ==> slot <= run(state, reports).latest_slot,
    decreases reports.len(),
{
    if reports.len() > 0 {
        law_latest_slot_is_the_greatest(state, reports.drop_last());
    }
}

/// How many attempts to set the sockets up failed in a course.
pub open spec fn failures(reports: Seq<Report>) -> nat
    decreases reports.len(),
{
    if reports.len() == 0 {
        0
    } else {
        failures(reports.drop_last()) + (if reports.last() is Setup && reports.last()->Setup_0 is Err {
            1nat
        } else {
            0nat
        })
    }
}

/// Whether no socket was read in a course.
pub open spec fn no_polls(reports: Seq<Report>) -> bool {
    forall|i: int| 0 <= i < reports.len() ==> !(#[trigger] reports[i] is Polled)
}

/// Whether the report at `i` ends an attempt to set the sockets up well: the last
/// step was due, and it succeeded.
pub open spec fn brings_sockets_up(reports: Seq<Report>, i: int) -> bool {
    &&& reports[i] is Setup && reports[i]->Setup_0 is Ok
    &&& run(SubscriptionState::initial(), reports.take(i)).next == Action::Subscribe(Channel::Slot)
}

/// Whether `since` is where a course stood when its sockets were last up, or its
/// beginning if they never were.
pub open spec fn last_up(reports: Seq<Report>, since: int) -> bool {
    &&& 0 <= since <= reports.len()
    &&& since == 0 || brings_sockets_up(reports, since - 1)
    &&& forall|i: int| since <= i < reports.len() ==> !#[trigger] brings_sockets_up(reports, i)
}

/// The failed attempts that a subscription counts are exactly those since its
/// sockets were last up. It is closed exactly when these are as many as are
/// allowed.
pub proof fn law_retries_count_failures_in_a_row(reports: Seq<Report>, since: int)
    requires
        is_course(SubscriptionState::initial(), reports),
        last_up(reports, since),
    ensures
        run(SubscriptionState::initial(), reports).retry_count == failures(reports.skip(since)),
        run(SubscriptionState::initial(), reports).next is Close <==> failures(reports.skip(since))
            == MAX_RETRIES,
    decreases reports.len(),
{
    let start = SubscriptionState::initial();
    law_every_state_is_well_formed(start, reports);
    if reports.len() > 0 {
        let rest = reports.drop_last();
        let n = rest.len() as int;
        let reached = run(start, rest);
        law_every_state_is_well_formed(start, rest);
        assert(reports.take(n) =~= rest);
        if since <= n {
            assert(!brings_sockets_up(reports, n));
            assert forall|i: int| 0 <= i < n implies #[trigger] brings_sockets_up(rest, i)
                == brings_sockets_up(reports, i) by {
                assert(rest.take(i) =~= reports.take(i));
            }
            assert(since > 0 ==> brings_sockets_up(rest, since - 1));
            law_retries_count_failures_in_a_row(rest, since);
            assert(reports.skip(since).drop_last() =~= rest.skip(since));
            assert(reports.skip(since).last() == reports.last());
            assert(reports.last() == reports[n]);
        } else {
            assert(brings_sockets_up(reports, n));
            assert(reports.skip(since).len() == 0);
        }
    }
}

/// In every course there is exactly one point at which its sockets were last up,
/// where its beginning counts if they never were.
pub proof fn law_sockets_were_last_up_at_one_point(reports: Seq<Report>)
    ensures
        exists|since: int| last_up(reports, since),
        forall|a: int, b: int| last_up(reports, a) && last_up(reports, b) ==> a == b,
    decreases reports.len(),
{
    assert forall|a: int, b: int| last_up(reports, a) && last_up(reports, b) implies a == b by {
        if a < b {
            assert(brings_sockets_up(reports, b - 1));
        }
        if b < a {
            assert(brings_sockets_up(reports, a - 1));
        }
    }
    if reports.len() == 0 {
        assert(last_up(reports, 0));
    } else {
        let rest = reports.drop_last();
        let n = rest.len() as int;
        if brings_sockets_up(reports, n) {
            assert(last_up(reports, n + 1));
        } else {
            law_sockets_were_last_up_at_one_point(rest);
            let since = choose|since: int| last_up(rest, since);
            assert forall|i: int| 0 <= i < n implies #[trigger] brings_sockets_up(rest, i)
                == brings_sockets_up(reports, i) by {
                assert(rest.take(i) =~= reports.take(i));
            }
            assert(since > 0 ==> brings_sockets_up(rest, since - 1));
            assert forall|i: int| since <= i < reports.len() implies !#[trigger] brings_sockets_up(
                reports,
                i,
            ) by {
                if i < n {
                    assert(!brings_sockets_up(rest, i));
                }
            }
            assert(last_up(reports, since));
        }
    }
}

/// No socket is read between the failed attempts that a subscription counts: a
/// course ends in a stretch without reads that holds all of them.
pub proof fn law_no_socket_is_read_between_failures(reports: Seq<Report>)
    requires
        is_course(SubscriptionState::initial(), reports),
    ensures
        exists|k: int|
            0 <= k <= reports.len() && no_polls(#[trigger] reports.skip(k)) && failures(
                reports.skip(k),
            ) == run(SubscriptionState::initial(), reports).retry_count,
    decreases reports.len(),
{
    let start = SubscriptionState::initial();
    law_every_state_is_well_formed(start, reports);
    if reports.len() == 0 {
        assert(reports.skip(0) =~= reports);
        assert(no_polls(reports.skip(0)) && failures(reports.skip(0)) == 0);
    } else {
        let rest = reports.drop_last();
        law_every_state_is_well_formed(start, rest);
        law_no_socket_is_read_between_failures(rest);
        let reached = run(start, rest);
        let last = reports.last();
        let n = reports.len() as int;
        if run(start, reports).retry_count == 0 {
            assert(reports.skip(n).len() == 0);
            assert(no_polls(reports.skip(n)) && failures(reports.skip(n)) == 0);
        } else {
            let k = choose|k: int|
                0 <= k <= rest.len() && no_polls(#[trigger] rest.skip(k)) && failures(rest.skip(k))
                    == reached.retry_count;
            assert(last is Setup);
            assert(reports.skip(k).drop_last() =~= rest.skip(k));
            assert(reports.skip(k).last() == last);
            assert forall|i: int| 0 <= i < reports.skip(k).len() implies !(
            #[trigger] reports.skip(k)[i] is Polled) by {
                if i < rest.skip(k).len() {
                    assert(rest.skip(k)[i] == reports.skip(k)[i]);
                }
            }
            assert(no_polls(reports.skip(k)));
            assert(failures(reports.skip(k)) == run(start, reports).retry_count);
        }
    }
}

/// How many steps it takes to set the sockets up.
pub const SETUP_STEPS: usize = 6;

/// The reports of `n` steps that succeed.
pub open spec fn successes(n: nat) -> Seq<Report> {
    Seq::new(n, |i: int| Report::Setup(Ok(())))
}

/// Steps that succeed without bringing the sockets up change nothing but what
/// comes next.
proof fn lemma_successes(state: SubscriptionState, n: nat)
    requires
        run(state, successes(n)).next.is_setup(),
    ensures
        is_course(state, successes(n)),
        run(state, successes(n)) == (SubscriptionState {
            next: run(state, successes(n)).next,
            ..state
        }),
    decreases n,
{
    if n > 0 {
        let before = (n - 1) as nat;
        assert(successes(n).drop_last() =~= successes(before));
        lemma_successes(state, before);
    }
}

/// What is next after `n` successful steps from the first socket on.
proof fn lemma_setup_steps(state: SubscriptionState, n: nat)
    requires
        state.next == Action::CreateSocket(Channel::Account),
        n < SETUP_STEPS,
    ensures
        run(state, successes(n)).next == (if n == 0 {
            Action::CreateSocket(Channel::Account)
        } else if n == 1 {
            Action::CreateSocket(Channel::Slot)
        } else if n == 2 {
            Action::Connect(Channel::Account)
        } else if n == 3 {
            Action::Connect(Channel::Slot)
        } else if n == 4 {
            Action::Subscribe(Channel::Account)
        } else {
            Action::Subscribe(Channel::Slot)
        }),
    decreases n,
{
    if n > 0 {
        let before = (n - 1) as nat;
        assert(successes(n).drop_last() =~= successes(before));
        lemma_setup_steps(state, before);
    }
}

/// Three failed attempts in a row close a subscription, at whichever step each
/// of them fails. The waits after them are four, eight and sixteen seconds, and
/// what the subscription shows is the error of the step that failed last.
pub proof fn law_three_failures_close(
    state: SubscriptionState,
    steps_before_first: nat,
    first: String,
    steps_before_second: nat,
    second: String,
    steps_before_third: nat,
    third: String,
)
    requires
        state.wf(),
        state.retry_count == 0,
        run(state, successes(steps_before_first)).next.is_setup(),
        steps_before_second < SETUP_STEPS,
        steps_before_third < SETUP_STEPS,
    ensures
        ({
            let at1 = run(state, successes(steps_before_first));
            let s1 = at1.after_setup(Err(first));
            let at2 = run(s1, successes(steps_before_second));
            let s2 = at2.after_setup(Err(second));
            let at3 = run(s2, successes(steps_before_third));
            let s3 = at3.after_setup(Err(third));
            &&& at1.next.is_setup() && at2.next.is_setup() && at3.next.is_setup()
            &&& s1.next == Action::CreateSocket(Channel::Account) && backoff(s1.retry_count) == 4
            &&& s2.next == Action::CreateSocket(Channel::Account) && backoff(s2.retry_count) == 8
            &&& s3.next is Close && backoff(s3.retry_count) == 16
            &&& s1.last_error == Some(at1.next.setup_error(first))
            &&& s2.last_error == Some(at2.next.setup_error(second))
            &&& s3.last_error == Some(at3.next.setup_error(third))
            &&& s3.latest_slot == state.latest_slot
        }),
{
    let at1 = run(state, successes(steps_before_first));
    lemma_successes(state, steps_before_first);
    let s1 = at1.after_setup(Err(first));
    lemma_setup_steps(s1, steps_before_second);
    lemma_successes(s1, steps_before_second);
    let s2 = run(s1, successes(steps_before_second)).after_setup(Err(second));
    lemma_setup_steps(s2, steps_before_third);
    lemma_successes(s2, steps_before_third);
    reveal_with_fuel(vstd::arithmetic::power::pow, 5);
    assert(backoff(1) == 4 && backoff(2) == 8 && backoff(3) == 16);
}

/// When every step succeeds, six steps lead from the first socket to polling,
/// with no failed attempt left to count.
pub proof fn law_setup_leads_to_polling(state: SubscriptionState)
    requires
        state.next == Action::CreateSocket(Channel::Account),
    ensures
        run(state, successes(SETUP_STEPS as nat)) == (SubscriptionState {
            next: Action::Poll(Channel::Account),
            retry_count: 0,
            ..state
        }),
        is_course(state, successes(SETUP_STEPS as nat)),
{
    let before = (SETUP_STEPS - 1) as nat;
    assert(successes(SETUP_STEPS as nat).drop_last() =~= successes(before));
    lemma_setup_steps(state, before);
    lemma_successes(state, before);
}

/// The first option that cannot be set decides: where the options before it can
/// be set, its failure is what setting them all comes to, whatever the options
/// after it would give. Where there is no such option, the socket is configured.
pub proof fn law_first_failure_decides<S, O: Fn(S, SocketOption) -> Result<S, String>>(
    set_option: O,
    socket: S,
    options: Seq<SocketOption>,
    configured: Result<S, String>,
    failing: int,
    cause: String,
)
    requires
        configures(set_option, socket, options, configured),
        0 <= failing <= options.len(),
        forall|i: int, s: S, outcome: Result<S, String>|
            0 <= i < failing && #[trigger] call_ensures(set_option, (s, options[i]), outcome)
                ==> outcome is Ok,
        failing < options.len() ==> forall|s: S, outcome: Result<S, String>| #[trigger]
            call_ensures(set_option, (s, options[failing]), outcome) ==> outcome == Err::<
                S,
                String,
            >(cause),
    ensures
        failing == options.len() ==> configured is Ok,
        failing < options.len() ==> configured == Err::<S, String>(cause),
{
    let sockets = choose|sockets: Seq<S>|
        {
            &&& #[trigger] states_of(set_option, socket, options, sockets)
            &&& match configured {
                Ok(done) => sockets.len() == options.len() + 1 && done == sockets.last(),
                Err(cause) => sockets.len() <= options.len() && call_ensures(
                    set_option,
                    (sockets.last(), options[sockets.len() - 1]),
                    Err::<S, String>(cause),
                ),
            }
        };
    if failing < sockets.len() - 1 {
        let next = sockets[failing + 1];
        assert(call_ensures(set_option, (sockets[failing], options[failing]), Ok::<S, String>(next)));
    }
}

/// What one step of setting the sockets up leads to. Success leads on: to the
/// next step, or to polling after the last, and then no failed attempt counts.
/// Failure counts as one more attempt: the third closes, any other begins anew.
/// Its error is one of connecting if the step was to connect, else one of the
/// socket. The latest slot is untouched.
pub proof fn law_steps(state: SubscriptionState, cause: String)
    requires
        state.next.is_setup(),
    ensures
        ({
            let on = state.after_setup(Ok(()));
            let back = state.after_setup(Err(cause));
            &&& on.latest_slot == state.latest_slot && on.last_error == state.last_error
            &&& on.next == (match state.next {
                Action::CreateSocket(Channel::Account) => Action::CreateSocket(Channel::Slot),
                Action::CreateSocket(Channel::Slot) => Action::Connect(Channel::Account),
                Action::Connect(Channel::Account) => Action::Connect(Channel::Slot),
                Action::Connect(Channel::Slot) => Action::Subscribe(Channel::Account),
                Action::Subscribe(Channel::Account) => Action::Subscribe(Channel::Slot),
                _ => Action::Poll(Channel::Account),
            })
            &&& on.retry_count == (if state.next == Action::Subscribe(Channel::Slot) {
                0
            } else {
                state.retry_count
            })
            &&& back.retry_count == state.retry_count + 1
            &&& back.latest_slot == state.latest_slot
            &&& back.next == (if state.retry_count + 1 >= 3 {
                Action::Close
            } else {
                Action::CreateSocket(Channel::Account)
            })
            &&& back.last_error == Some(
                if state.next is Connect {
                    ZmqError::Connect(cause)
                } else {
                    ZmqError::Socket(cause)
                },
            )
        }),
{
}

/// After each further failure in a row the wait is twice as long. It is four
/// seconds after the first.
pub proof fn law_waits_double(retry_count: nat)
    requires
        retry_count > 0,
    ensures
        backoff(1) == 4,
        backoff(retry_count + 1) == 2 * backoff(retry_count),
{
    reveal_with_fuel(vstd::arithmetic::power::pow, 3);
}

/// What reading a socket leads to. A message that counts on its socket raises the
/// latest slot to its own if that is greater; no other does anything but pass the
/// turn on. A message that cannot be decoded leads to new sockets, with its error
/// kept. No read counts as a failed attempt.
pub proof fn law_reads(state: SubscriptionState, received: Received)
    requires
        state.next is Poll,
    ensures
        ({
            let after = state.after_poll(received);
            let turn = if state.next == Action::Poll(Channel::Account) {
                Action::Poll(Channel::Slot)
            } else {
                Action::Poll(Channel::Account)
            };
            let counts = match received {
                Received::Message(Message::Account(msg)) => state.next == Action::Poll(
                    Channel::Account,
                ),
                Received::Message(Message::Slot(msg)) => state.next == Action::Poll(Channel::Slot),
                _ => false,
            };
            let slot = match received {
                Received::Message(Message::Account(msg)) => msg.slot,
                Received::Message(Message::Slot(msg)) => msg.slot,
                _ => 0,
            };
            &&& after.retry_count == state.retry_count
            &&& after.latest_slot == (if counts && slot > state.latest_slot {
                slot
            } else {
                state.latest_slot
            })
            &&& match received {
                Received::Undecodable(cause) => {
                    &&& after.next == Action::CreateSocket(Channel::Account)
                    &&& after.last_error == Some(ZmqError::Deserialize(cause))
                },
                _ => after.next == turn && after.last_error == state.last_error,
            }
        }),
{
}

/// The later of two slots is one of them and no less than either.
pub proof fn law_later(a: Slot, b: Slot)
    ensures
        later(a, b) == a || later(a, b) == b,
        later(a, b) >= a,
        later(a, b) >= b,
{
}

/// A subscription begins with its account socket, without failures, slots or
/// errors behind it.
pub proof fn law_subscriptions_begin_afresh()
    ensures
        SubscriptionState::initial().next == Action::CreateSocket(Channel::Account),
        SubscriptionState::initial().retry_count == 0,
        SubscriptionState::initial().latest_slot == 0,
        SubscriptionState::initial().last_error is None,
        SubscriptionState::initial().wf(),
{
}

/// The steps of setting the sockets up are those that create, connect or
/// subscribe.
pub proof fn law_setup_steps_are_told_apart(action: Action)
    ensures
        action.is_setup() <==> !(action is Poll) && !(action is Close),
{
}

/// The place of an option among those that are set on a socket.
pub open spec fn rank(option: SocketOption) -> int {
    match option {
        SocketOption::ReceiveTimeout(_) => 0,
        SocketOption::SendTimeout(_) => 1,
        SocketOption::ReceiveHighWaterMark(_) => 2,
        SocketOption::SendHighWaterMark(_) => 3,
        SocketOption::Linger(_) => 4,
        SocketOption::ReconnectInterval(_) => 5,
        SocketOption::MaxReconnectInterval(_) => 6,
    }
}

/// An option is set, with a value, exactly when the field of that option has that
/// value. Each kind of option is set at most once, and in a fixed order.
pub proof fn law_options_carry_their_values(opts: ZmqConnectionOpts, v: i32)
    ensures
        opts.settings().contains(SocketOption::ReceiveTimeout(v)) <==> opts.receive_timeout_ms
            == Some(v),
        opts.settings().contains(SocketOption::SendTimeout(v)) <==> opts.send_timeout_ms == Some(v),
        opts.settings().contains(SocketOption::ReceiveHighWaterMark(v)) <==> opts.receive_hwm
            == Some(v),
        opts.settings().contains(SocketOption::SendHighWaterMark(v)) <==> opts.send_hwm == Some(v),
        opts.settings().contains(SocketOption::Linger(v)) <==> opts.linger_ms == Some(v),
        opts.settings().contains(SocketOption::ReconnectInterval(v)) <==> opts.reconnect_interval_ms
            == Some(v),
        opts.settings().contains(SocketOption::MaxReconnectInterval(v))
            <==> opts.max_reconnect_interval_ms == Some(v),
        forall|j: int, k: int|
            0 <= j < k < opts.settings().len() ==> rank(opts.settings()[j]) < rank(
                opts.settings()[k],
            ),
{
    let s0 = Seq::<SocketOption>::empty();
    let s1 = lemma_then_set(
        s0,
        opts.receive_timeout_ms,
        |v: i32| SocketOption::ReceiveTimeout(v),
        0,
    );
    let s2 = lemma_then_set(s1, opts.send_timeout_ms, |v: i32| SocketOption::SendTimeout(v), 1);
    let s3 = lemma_then_set(s2, opts.receive_hwm, |v: i32| SocketOption::ReceiveHighWaterMark(v), 2);
    let s4 = lemma_then_set(s3, opts.send_hwm, |v: i32| SocketOption::SendHighWaterMark(v), 3);
    let s5 = lemma_then_set(s4, opts.linger_ms, |v: i32| SocketOption::Linger(v), 4);
    let s6 = lemma_then_set(
        s5,
        opts.reconnect_interval_ms,
        |v: i32| SocketOption::ReconnectInterval(v),
        5,
    );
    let s7 = lemma_then_set(
        s6,
        opts.max_reconnect_interval_ms,
        |v: i32| SocketOption::MaxReconnectInterval(v),
        6,
    );
    assert(s7 == opts.settings());
}

/// Whether options come in their order and all before the place `end`.
spec fn ranked(options: Seq<SocketOption>, end: int) -> bool {
    &&& forall|j: int| 0 <= j < options.len() ==> rank(#[trigger] options[j]) < end
    &&& forall|j: int, k: int|
        0 <= j < k < options.len() ==> rank(options[j]) < rank(options[k])
}

/// What one more option adds.
proof fn lemma_then_set(
    options: Seq<SocketOption>,
    value: Option<i32>,
    option: spec_fn(i32) -> SocketOption,
    place: int,
) -> (more: Seq<SocketOption>)
    requires
        ranked(options, place),
        forall|v: i32| rank(#[trigger] option(v)) == place,
    ensures
        more == then_set(options, value, option),
        ranked(more, place + 1),
        forall|o: SocketOption| #[trigger]
            more.contains(o) <==> options.contains(o) || (value matches Some(v) && o == option(v)),
{
    let more = then_set(options, value, option);
    assert forall|o: SocketOption| #[trigger] more.contains(o) <==> options.contains(o) || (
    value matches Some(v) && o == option(v)) by {
        if options.contains(o) {
            let j = choose|j: int| 0 <= j < options.len() && options[j] == o;
            assert(more[j] == o);
        }
        if value is Some {
            assert(more[options.len() as int] == option(value->Some_0));
        }
    }
    more
}

/// The options that are used where none are given.
pub proof fn law_default_options()
    ensures
        default_opts().socket_type == SocketType::SUB,
        default_opts().receive_timeout_ms == Some(1000i32),
        default_opts().send_timeout_ms is None,
        default_opts().receive_hwm == Some(1000i32),
        default_opts().send_hwm is None,
        default_opts().linger_ms == Some(0i32),
        default_opts().reconnect_interval_ms == Some(100i32),
        default_opts().max_reconnect_interval_ms == Some(10000i32),
{
}

/// With no option to set, a socket stays as it is. Else the first option is set;
/// where that fails, its failure is the result, and where it succeeds, the result
/// is that of setting the other options on what it gave.
pub proof fn law_options_are_set_one_by_one<S, O: Fn(S, SocketOption) -> Result<S, String>>(
    set_option: O,
    socket: S,
    options: Seq<SocketOption>,
    configured: Result<S, String>,
)
    ensures
        options.len() == 0 ==> (configures(set_option, socket, options, configured) <==> configured
            == Ok::<S, String>(socket)),
        options.len() > 0 ==> (configures(set_option, socket, options, configured)
            <==> exists|outcome: Result<S, String>|
            {
                &&& #[trigger] call_ensures(set_option, (socket, options[0]), outcome)
                &&& match outcome {
                    Ok(next) => configures(set_option, next, options.skip(1), configured),
                    Err(cause) => configured == Err::<S, String>(cause),
                }
            }),
{
    if options.len() == 0 {
        if configured == Ok::<S, String>(socket) {
            assert(states_of(set_option, socket, options, seq![socket]));
        }
    } else {
        if configures(set_option, socket, options, configured) {
            let sockets = choose|sockets: Seq<S>|
                {
                    &&& #[trigger] states_of(set_option, socket, options, sockets)
                    &&& match configured {
                        Ok(done) => sockets.len() == options.len() + 1 && done == sockets.last(),
                        Err(cause) => sockets.len() <= options.len() && call_ensures(
                            set_option,
                            (sockets.last(), options[sockets.len() - 1]),
                            Err::<S, String>(cause),
                        ),
                    }
                };
            if sockets.len() == 1 {
                assert(call_ensures(set_option, (socket, options[0]), configured));
            } else {
                let outcome = Ok::<S, String>(sockets[1]);
                assert(call_ensures(set_option, (socket, options[0]), outcome));
                assert(states_of(set_option, sockets[1], options.skip(1), sockets.skip(1)));
                assert(sockets.skip(1).last() == sockets.last());
            }
        }
        if exists|outcome: Result<S, String>|
            {
                &&& #[trigger] call_ensures(set_option, (socket, options[0]), outcome)
                &&& match outcome {
                    Ok(next) => configures(set_option, next, options.skip(1), configured),
                    Err(cause) => configured == Err::<S, String>(cause),
                }
            } {
            let outcome = choose|outcome: Result<S, String>|
                {
                    &&& #[trigger] call_ensures(set_option, (socket, options[0]), outcome)
                    &&& match outcome {
                        Ok(next) => configures(set_option, next, options.skip(1), configured),
                        Err(cause) => configured == Err::<S, String>(cause),
                    }
                };
            if outcome is Err {
                assert(states_of(set_option, socket, options, seq![socket]));
            } else {
                let later_sockets = choose|sockets: Seq<S>|
                    {
                        &&& #[trigger] states_of(
                            set_option,
                            outcome->Ok_0,
                            options.skip(1),
                            sockets,
                        )
                        &&& match configured {
                            Ok(done) => sockets.len() == options.skip(1).len() + 1 && done
                                == sockets.last(),
                            Err(cause) => sockets.len() <= options.skip(1).len() && call_ensures(
                                set_option,
                                (sockets.last(), options.skip(1)[sockets.len() - 1]),
                                Err::<S, String>(cause),
                            ),
                        }
                    };
                let sockets = seq![socket] + later_sockets;
                assert forall|i: int| 1 <= i < sockets.len() implies call_ensures(
                    set_option,
                    (sockets[i - 1], options[i - 1]),
                    Ok::<S, String>(#[trigger] sockets[i]),
                ) by {
                    assert(sockets[i] == later_sockets[i - 1]);
                    if i > 1 {
                        assert(sockets[i - 1] == later_sockets[i - 2]);
                        assert(options.skip(1)[i - 2] == options[i - 1]);
                    }
                }
                assert(states_of(set_option, socket, options, sockets));
                assert(sockets.last() == later_sockets.last());
            }
        }
    }
}

/// An error reads as its kind, followed by its cause, which it gives back.
pub proof fn law_error_texts(cause: String)
    ensures
        ZmqError::Context(cause).text() == "zmq context err: "@ + cause@,
        ZmqError::Socket(cause).text() == "zmq socket err: "@ + cause@,
        ZmqError::Connect(cause).text() == "zmq connect err: "@ + cause@,
        ZmqError::Receive(cause).text() == "zmq receive err: "@ + cause@,
        ZmqError::Deserialize(cause).text() == "zmq deserialize err: "@ + cause@,
        ZmqError::Context(cause).cause() == cause,
        ZmqError::Socket(cause).cause() == cause,
        ZmqError::Connect(cause).cause() == cause,
        ZmqError::Receive(cause).cause() == cause,
        ZmqError::Deserialize(cause).cause() == cause,
{
}

/// The slot of a message is the one that it carries; that of a block is the one
/// that its metadata carries.
pub proof fn law_slots_of_messages(
    slot: MessageSlot,
    account: Box<MessageAccount>,
    transaction: Box<MessageTransaction>,
    entry: MessageEntry,
    block_meta: MessageBlockMeta,
    block: MessageBlock,
    both: Box<MessageAccAndTx>,
    tick: MessageTick,
)
    ensures
        Message::Slot(slot).slot() == slot.slot,
        Message::Account(account).slot() == account.slot,
        Message::Transaction(transaction).slot() == transaction.slot,
        Message::Entry(entry).slot() == entry.slot,
        Message::BlockMeta(block_meta).slot() == block_meta.slot,
        Message::Block(block).slot() == block.meta.slot,
        Message::AccAndTx(both).slot() == both.slot,
        Message::Tick(tick).slot() == tick.slot,
{
}

/// A message is of the type that is named like its variant.
pub proof fn law_types_of_messages(message: Message)
    ensures
        message is Slot <==> message.message_type() is Slot,
        message is Account <==> message.message_type() is Account,
        message is Transaction <==> message.message_type() is Transaction,
        message is Entry <==> message.message_type() is Entry,
        message is BlockMeta <==> message.message_type() is BlockMeta,
        message is Block <==> message.message_type() is Block,
        message is AccAndTx <==> message.message_type() is AccAndTx,
        message is Tick <==> message.message_type() is Tick,
{
}

/// The two sockets are read in turn. To receive nothing changes nothing else,
/// and only a message that cannot be decoded ends the turns.
pub proof fn law_sockets_are_read_in_turn(state: SubscriptionState, cause: String, message: Message)
    requires
        state.next is Poll,
    ensures
        state.after_poll(Received::Nothing(cause)) == (SubscriptionState {
            next: state.next.following(),
            ..state
        }),
        state.after_poll(Received::Message(message)).next == state.next.following(),
        state.after_poll(Received::Undecodable(cause)).next == Action::CreateSocket(
            Channel::Account,
        ),
        state.next.following() is Poll,
        state.next.following() != state.next,
        state.next.following().following() == state.next,
{
}

/// The length and the first letter of a type's name, which tell the types apart.
proof fn lemma_type_name(t: MessageType)
    ensures
        (t.name().len(), t.name()[0]) == (match t {
            MessageType::Tick => (4nat, 'T'),
            MessageType::Slot => (4nat, 'S'),
            MessageType::Account => (7nat, 'A'),
            MessageType::Transaction => (11nat, 'T'),
            MessageType::Entry => (5nat, 'E'),
            MessageType::BlockMeta => (9nat, 'B'),
            MessageType::Block => (5nat, 'B'),
            MessageType::AccAndTx => (8nat, 'A'),
        }),
{
    reveal_strlit("Tick");
    reveal_strlit("Slot");
    reveal_strlit("Account");
    reveal_strlit("Transaction");
    reveal_strlit("Entry");
    reveal_strlit("BlockMeta");
    reveal_strlit("Block");
    reveal_strlit("AccAndTx");
}

/// No two message types have the same name, so `parse_variant` gives back the
/// type whose name `as_str` gave.
pub proof fn law_type_names_differ(a: MessageType, b: MessageType)
    requires
        a.name() == b.name(),
    ensures
        a == b,
{
    lemma_type_name(a);
    lemma_type_name(b);
}

/// The label of a message is the name of its type, except for
/// account-and-transaction messages, whose label is the name of no type.
pub proof fn law_labels(message: Message)
    ensures
        !(message is AccAndTx) ==> message.label() == message.message_type().name(),
        message is AccAndTx ==> forall|t: MessageType| t.name() != message.label(),
{
    if message is AccAndTx {
        reveal_strlit("Acctx");
        assert forall|t: MessageType| t.name() != message.label() by {
            lemma_type_name(t);
            assert("Acctx"@.len() == 5 && "Acctx"@[0] == 'A');
        }
    }
}

/// A commitment level equals a slot status exactly when they have the same name.
pub proof fn law_level_equals_status_of_same_name(level: CommitmentLevel, status: SlotStatus)
    ensures
        status == committed_status(level) <==> level.name() == status.name(),
{
    reveal_strlit("processed");
    reveal_strlit("confirmed");
    reveal_strlit("finalized");
    reveal_strlit("first_shread_received");
    reveal_strlit("completed");
    reveal_strlit("created_bank");
    reveal_strlit("dead");
    assert("processed"@[0] == 'p' && "finalized"@[0] == 'f');
    assert("confirmed"@[0] == 'c' && "completed"@[0] == 'c');
    assert("confirmed"@[2] == 'n' && "completed"@[2] == 'm');
    if level.name() == status.name() {
        assert(level.name()[0] == status.name()[0] && level.name()[2] == status.name()[2]);
        match level {
            CommitmentLevel::Processed => { assert(status is Processed); },
            CommitmentLevel::Confirmed => { assert(status is Confirmed); },
            CommitmentLevel::Finalized => { assert(status is Finalized); },
        }
    }
}

} // verus!
