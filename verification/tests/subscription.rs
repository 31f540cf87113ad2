use std::time::SystemTime;

use drift_stream::zmq::error::ZmqError;
use drift_stream::zmq::filter::AccountFilter;
use drift_stream::zmq::message::{
    Message, MessageAccount, MessageAccountInfo, MessageEntry, MessageSlot, SlotStatus,
};
use drift_stream::zmq::opts::{SocketType, ZmqConnectionOpts};
use drift_stream::zmq::receive::{
    receive_and_process_account, receive_and_process_slot, select_hooks, AccountOutcome, Received,
    SlotOutcome,
};
use drift_stream::zmq::subscription::{Action, Channel, Subscription};
use drift_stream::zmq::zmq_subscriber::DriftZmqClient;

fn account(pubkey: [u8; 32], slot: u64, data: &[u8]) -> Message {
    Message::Account(Box::new(MessageAccount {
        account: MessageAccountInfo {
            pubkey,
            lamports: 5,
            owner: [8; 32],
            executable: true,
            rent_epoch: 7,
            data: data.to_vec(),
            write_version: 9,
            txn_signature: None,
        },
        slot,
        is_startup: false,
        created_at: SystemTime::UNIX_EPOCH,
    }))
}

fn slot(slot: u64) -> Message {
    Message::Slot(MessageSlot {
        slot,
        parent: None,
        status: SlotStatus::Processed,
        dead_error: None,
        created_at: SystemTime::UNIX_EPOCH,
    })
}

fn entry() -> Message {
    Message::Entry(MessageEntry::default())
}

fn hooks() -> Vec<(AccountFilter, &'static str)> {
    vec![
        (AccountFilter::firehose(), "all"),
        (AccountFilter::partial(), "none"),
        (AccountFilter::full().with_accounts(vec![[1; 32]]), "one"),
    ]
}

fn connected() -> Subscription {
    let mut subscription = Subscription::new();
    for _ in 0..6 {
        assert_eq!(subscription.setup_done(Ok(())), None);
    }
    subscription
}

#[test]
fn hooks_are_selected_in_order() {
    assert_eq!(select_hooks(&hooks(), &[1; 32], &[]), vec![0, 2]);
    assert_eq!(select_hooks(&hooks(), &[2; 32], &[]), vec![0]);
    let no_hooks: Vec<(AccountFilter, ())> = vec![];
    assert!(select_hooks(&no_hooks, &[1; 32], &[]).is_empty());
}

#[test]
fn account_messages_are_dispatched_and_raise_the_slot() {
    let mut latest = 4;
    let received = Received::Message(account([1; 32], 6, &[1, 2]));
    match receive_and_process_account(received, &hooks(), &mut latest) {
        Ok(AccountOutcome::Dispatch { account, hooks }) => {
            assert_eq!(hooks, vec![0, 2]);
            let update = account.account_update();
            assert_eq!(update.pubkey, [1; 32]);
            assert_eq!(update.owner, [8; 32]);
            assert_eq!(update.slot, 6);
            assert_eq!(update.lamports, 5);
            assert!(update.executable);
            assert_eq!(update.rent_epoch, 7);
            assert_eq!(update.data, &[1, 2]);
        }
        other => panic!("{other:?}"),
    }
    assert_eq!(latest, 6);
}

#[test]
fn old_account_messages_are_dispatched_too() {
    let mut latest = 9;
    let received = Received::Message(account([2; 32], 6, &[]));
    match receive_and_process_account(received, &hooks(), &mut latest) {
        Ok(AccountOutcome::Dispatch { hooks, .. }) => assert_eq!(hooks, vec![0]),
        other => panic!("{other:?}"),
    }
    assert_eq!(latest, 9);
}

#[test]
fn other_messages_are_ignored_on_both_sockets() {
    let mut latest = 3;
    match receive_and_process_account(Received::Message(slot(8)), &hooks(), &mut latest) {
        Ok(AccountOutcome::Ignored(label)) => assert_eq!(label, "Slot"),
        other => panic!("{other:?}"),
    }
    match receive_and_process_slot(Received::Message(account([1; 32], 8, &[])), &mut latest) {
        Ok(SlotOutcome::Ignored(label)) => assert_eq!(label, "Account"),
        other => panic!("{other:?}"),
    }
    assert_eq!(latest, 3);
}

#[test]
fn later_slots_are_notified_and_others_are_stale() {
    let mut latest = 3;
    match receive_and_process_slot(Received::Message(slot(5)), &mut latest) {
        Ok(SlotOutcome::Notify(slot)) => assert_eq!(slot, 5),
        other => panic!("{other:?}"),
    }
    assert_eq!(latest, 5);
    match receive_and_process_slot(Received::Message(slot(5)), &mut latest) {
        Ok(SlotOutcome::Stale(slot)) => assert_eq!(slot, 5),
        other => panic!("{other:?}"),
    }
    assert_eq!(latest, 5);
}

#[test]
fn failed_reads_give_their_errors() {
    let mut latest = 3;
    match receive_and_process_account(Received::Nothing("a".into()), &hooks(), &mut latest) {
        Err(error) => assert_eq!(error, ZmqError::Receive("a".into())),
        other => panic!("{other:?}"),
    }
    match receive_and_process_account(Received::Undecodable("b".into()), &hooks(), &mut latest) {
        Err(error) => assert_eq!(error, ZmqError::Deserialize("b".into())),
        other => panic!("{other:?}"),
    }
    match receive_and_process_slot(Received::Nothing("c".into()), &mut latest) {
        Err(error) => assert_eq!(error, ZmqError::Receive("c".into())),
        other => panic!("{other:?}"),
    }
    match receive_and_process_slot(Received::Undecodable("d".into()), &mut latest) {
        Err(error) => assert_eq!(error, ZmqError::Deserialize("d".into())),
        other => panic!("{other:?}"),
    }
    assert_eq!(latest, 3);
}

#[test]
fn sockets_are_set_up_in_order() {
    let mut subscription = Subscription::new();
    let steps = [
        Action::CreateSocket(Channel::Account),
        Action::CreateSocket(Channel::Slot),
        Action::Connect(Channel::Account),
        Action::Connect(Channel::Slot),
        Action::Subscribe(Channel::Account),
        Action::Subscribe(Channel::Slot),
    ];
    for step in steps {
        assert_eq!(subscription.next_action(), step);
        assert_eq!(subscription.setup_done(Ok(())), None);
    }
    assert_eq!(subscription.next_action(), Action::Poll(Channel::Account));
}

#[test]
fn three_failures_in_a_row_close() {
    let mut subscription = Subscription::new();
    assert_eq!(subscription.setup_done(Err("a".into())), Some(4));
    assert_eq!(
        subscription.next_action(),
        Action::CreateSocket(Channel::Account)
    );
    assert_eq!(subscription.setup_done(Ok(())), None);
    assert_eq!(subscription.setup_done(Err("b".into())), Some(8));
    assert_eq!(subscription.setup_done(Ok(())), None);
    assert_eq!(subscription.setup_done(Ok(())), None);
    assert_eq!(
        subscription.next_action(),
        Action::Connect(Channel::Account)
    );
    assert_eq!(subscription.setup_done(Err("c".into())), Some(16));
    assert_eq!(subscription.next_action(), Action::Close);
    assert_eq!(
        subscription.into_error(),
        Some(ZmqError::Connect("c".into()))
    );
}

#[test]
fn setup_errors_name_the_step() {
    for (succeed, error) in [
        (0, ZmqError::Socket("x".into())),
        (1, ZmqError::Socket("x".into())),
        (2, ZmqError::Connect("x".into())),
        (3, ZmqError::Connect("x".into())),
        (4, ZmqError::Socket("x".into())),
        (5, ZmqError::Socket("x".into())),
    ] {
        let mut subscription = Subscription::new();
        for _ in 0..succeed {
            subscription.setup_done(Ok(()));
        }
        subscription.setup_done(Err("x".into()));
        assert_eq!(subscription.into_error(), Some(error));
    }
}

#[test]
fn connecting_forgets_failures() {
    let mut subscription = Subscription::new();
    subscription.setup_done(Err("a".into()));
    subscription.setup_done(Err("b".into()));
    for _ in 0..6 {
        subscription.setup_done(Ok(()));
    }
    subscription.poll_account(Received::Undecodable("bad".into()), &hooks());
    assert_eq!(
        subscription.next_action(),
        Action::CreateSocket(Channel::Account)
    );
    assert_eq!(subscription.setup_done(Err("c".into())), Some(4));
}

#[test]
fn sockets_are_polled_in_turn() {
    let mut subscription = connected();
    for _ in 0..3 {
        assert_eq!(subscription.next_action(), Action::Poll(Channel::Account));
        assert!(subscription
            .poll_account(Received::Nothing("EAGAIN".into()), &hooks())
            .is_none());
        assert_eq!(subscription.next_action(), Action::Poll(Channel::Slot));
        assert!(subscription
            .poll_slot(Received::Nothing("EAGAIN".into()))
            .is_none());
    }
    assert_eq!(subscription.into_error(), None);
}

#[test]
fn undecodable_messages_lead_to_new_sockets() {
    let mut subscription = connected();
    subscription.poll_account(Received::Message(entry()), &hooks());
    assert!(subscription
        .poll_slot(Received::Undecodable("bad".into()))
        .is_none());
    assert_eq!(
        subscription.next_action(),
        Action::CreateSocket(Channel::Account)
    );
    assert_eq!(
        subscription.into_error(),
        Some(ZmqError::Deserialize("bad".into()))
    );
}

#[test]
fn notified_slots_ascend() {
    let mut subscription = connected();
    let mut notified = vec![];
    for (account_slot, slot_slot) in [(5, 3), (1, 7), (9, 9), (2, 10), (2, 10)] {
        let received = Received::Message(account([1; 32], account_slot, &[]));
        assert!(matches!(
            subscription.poll_account(received, &hooks()),
            Some(AccountOutcome::Dispatch { .. })
        ));
        if let Some(SlotOutcome::Notify(slot)) =
            subscription.poll_slot(Received::Message(slot(slot_slot)))
        {
            notified.push(slot);
        }
    }
    assert_eq!(notified, vec![7, 10]);
    assert_eq!(subscription.latest_slot(), 10);
}

#[test]
fn clients_subscribe_with_what_was_set() {
    let mut client: DriftZmqClient<u32, &str> =
        DriftZmqClient::new("tcp://a".to_string(), "tcp://b".to_string());
    client.on_account(AccountFilter::firehose(), 1);
    client.on_account(AccountFilter::partial(), 2);
    client.on_slot("first");
    client.on_slot("second");
    let opts = ZmqConnectionOpts {
        socket_type: SocketType::PULL,
        ..ZmqConnectionOpts::default()
    };
    let task = client.zmq_connection_opts(opts).subscribe();
    assert_eq!(task.account_endpoint, "tcp://a");
    assert_eq!(task.slot_endpoint, "tcp://b");
    assert_eq!(task.endpoint(Channel::Account), "tcp://a");
    assert_eq!(task.endpoint(Channel::Slot), "tcp://b");
    assert_eq!(task.opts.socket_type, SocketType::PULL);
    assert_eq!(task.on_account_hooks.len(), 2);
    assert_eq!(task.on_account_hooks[0].1, 1);
    assert_eq!(task.on_account_hooks[1].1, 2);
    assert_eq!(task.on_slot, Some("second"));
    assert_eq!(
        task.subscription.next_action(),
        Action::CreateSocket(Channel::Account)
    );
}

#[test]
fn clients_have_default_options() {
    let client: DriftZmqClient<(), ()> = DriftZmqClient::new(String::new(), String::new());
    let task = client.subscribe();
    assert_eq!(task.opts.receive_timeout_ms, Some(1000));
    assert_eq!(task.opts.socket_type, SocketType::SUB);
    assert!(task.on_account_hooks.is_empty());
    assert_eq!(task.on_slot, None);
}
