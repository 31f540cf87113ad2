//! The course of a subscription: when sockets are set up, polled and given up.
use vstd::arithmetic::power::pow;
use vstd::prelude::*;

use crate::types::Slot;
use crate::zmq::error::ZmqError;
use crate::zmq::filter::AccountFilter;
use crate::zmq::message::Message;
use crate::zmq::receive::{
    later, receive_and_process_account, receive_and_process_slot, selected_hooks, AccountOutcome,
    Received, SlotOutcome,
};

verus! {

/// How many attempts in a row to set the sockets up may fail.
pub const MAX_RETRIES: u32 = 3;

/// The two sockets of a subscription.
#[derive(Debug, Clone, Copy, PartialEq, Eq, Structural)]
pub enum Channel {
    Account,
    Slot,
}

/// What a subscription does next.
#[derive(Debug, Clone, Copy, PartialEq, Eq, Structural)]
pub enum Action {
    /// Create a socket and set its options. The account socket comes first, in
    /// a new context.
    CreateSocket(Channel),
    /// Connect a socket to its endpoint, which the task of the subscription knows.
    Connect(Channel),
    /// Subscribe a socket to all messages.
    Subscribe(Channel),
    /// Read a socket once, without waiting.
    Poll(Channel),
    /// Stop: too many attempts to set the sockets up have failed.
    Close,
}

impl Action {
    /// Whether an action is a step of setting the sockets up.
    pub open spec fn is_setup(self) -> bool {
        self is CreateSocket || self is Connect || self is Subscribe
    }

    /// What follows when an action has done its part.
    pub open spec fn following(self) -> Action {
        match self {
            Action::CreateSocket(Channel::Account) => Action::CreateSocket(Channel::Slot),
            Action::CreateSocket(Channel::Slot) => Action::Connect(Channel::Account),
            Action::Connect(Channel::Account) => Action::Connect(Channel::Slot),
            Action::Connect(Channel::Slot) => Action::Subscribe(Channel::Account),
            Action::Subscribe(Channel::Account) => Action::Subscribe(Channel::Slot),
            Action::Subscribe(Channel::Slot) => Action::Poll(Channel::Account),
            Action::Poll(Channel::Account) => Action::Poll(Channel::Slot),
            Action::Poll(Channel::Slot) => Action::Poll(Channel::Account),
            Action::Close => Action::Close,
        }
    }

    /// The error that stands for the failure of a step of setting the sockets
    /// up: one of connecting where the step connects, one of the socket else.
    pub open spec fn setup_error(self, cause: String) -> ZmqError {
        match self {
            Action::Connect(_) => ZmqError::Connect(cause),
            _ => ZmqError::Socket(cause),
        }
    }

    fn next(self) -> (next: Action)
        ensures
            next == self.following(),
    {
        match self {
            Action::CreateSocket(Channel::Account) => Action::CreateSocket(Channel::Slot),
            Action::CreateSocket(Channel::Slot) => Action::Connect(Channel::Account),
            Action::Connect(Channel::Account) => Action::Connect(Channel::Slot),
            Action::Connect(Channel::Slot) => Action::Subscribe(Channel::Account),
            Action::Subscribe(Channel::Account) => Action::Subscribe(Channel::Slot),
            Action::Subscribe(Channel::Slot) => Action::Poll(Channel::Account),
            Action::Poll(Channel::Account) => Action::Poll(Channel::Slot),
            Action::Poll(Channel::Slot) => Action::Poll(Channel::Account),
            Action::Close => Action::Close,
        }
    }
}

/// Where a subscription stands.
pub struct SubscriptionState {
    /// What comes next.
    pub next: Action,
    /// How many attempts in a row to set the sockets up have failed.
    pub retry_count: nat,
    /// The latest slot seen on either socket.
    pub latest_slot: Slot,
    /// The last error that set the subscription back.
    pub last_error: Option<ZmqError>,
}

/// The seconds to wait after the attempt that makes `retry_count` failures in
/// a row.
pub open spec fn backoff(retry_count: nat) -> int {
    pow(2, retry_count + 1)
}

impl SubscriptionState {
    /// The state of a new subscription.
    pub open spec fn initial() -> SubscriptionState {
        SubscriptionState {
            next: Action::CreateSocket(Channel::Account),
            retry_count: 0,
            latest_slot: 0,
            last_error: None,
        }
    }

    /// What holds of every state that a subscription can reach: it is closed
    /// exactly when the attempts are used up, it has no failed attempt behind
    /// it while it polls, and a failed attempt has left its error, which is one
    /// of a socket or of connecting.
    pub open spec fn wf(self) -> bool {
        &&& self.retry_count <= MAX_RETRIES
        &&& self.next is Close <==> self.retry_count == MAX_RETRIES
        &&& self.next is Poll ==> self.retry_count == 0
        &&& self.retry_count > 0 ==> (self.last_error matches Some(error) && (error is Socket
            || error is Connect))
    }

    /// The state after the step of setting the sockets up that was next.
    pub open spec fn after_setup(self, result: Result<(), String>) -> SubscriptionState {
        match result {
            Ok(_) => SubscriptionState {
                next: self.next.following(),
                retry_count: if self.next.following() is Poll {
                    0
                } else {
                    self.retry_count
                },
                ..self
            },
            Err(cause) => SubscriptionState {
                next: if self.retry_count + 1 >= MAX_RETRIES {
                    Action::Close
                } else {
                    Action::CreateSocket(Channel::Account)
                },
                retry_count: self.retry_count + 1,
                last_error: Some(self.next.setup_error(cause)),
                ..self
            },
        }
    }

    /// The latest slot once `received` was read from the socket that was next.
    /// Account messages count on the account socket, slot messages on the
    /// slot socket.
    pub open spec fn slot_after(self, received: Received) -> Slot {
        match (self.next, received) {
            (Action::Poll(Channel::Account), Received::Message(Message::Account(msg))) => later(
                self.latest_slot,
                msg.slot,
            ),
            (Action::Poll(Channel::Slot), Received::Message(Message::Slot(msg))) => later(
                self.latest_slot,
                msg.slot,
            ),
            _ => self.latest_slot,
        }
    }

    /// The state after `received` was read from the socket that was next. A
    /// message that cannot be decoded makes the subscription set its sockets
    /// up anew, without a wait; to receive nothing does not.
    pub open spec fn after_poll(self, received: Received) -> SubscriptionState {
        match received {
            Received::Undecodable(cause) => SubscriptionState {
                next: Action::CreateSocket(Channel::Account),
                last_error: Some(ZmqError::Deserialize(cause)),
                ..self
            },
            _ => SubscriptionState {
                next: self.next.following(),
                latest_slot: self.slot_after(received),
                ..self
            },
        }
    }
}

/// A subscription to account and slot messages. It decides what is to be done
/// next and is told how that went.
#[derive(Debug)]
pub struct Subscription {
    next: Action,
    retry_count: u32,
    latest_slot: Slot,
    last_error: Option<ZmqError>,
}

impl View for Subscription {
    type V = SubscriptionState;

    closed spec fn view(&self) -> SubscriptionState {
        SubscriptionState {
            next: self.next,
            retry_count: self.retry_count as nat,
            latest_slot: self.latest_slot,
            last_error: self.last_error,
        }
    }
}

/// Two to the power of `exponent`.
fn power_of_two(exponent: u32) -> (power: u64)
    requires
        exponent < 64,
    ensures
        power == pow(2, exponent as nat),
{
    let mut power: u64 = 1;
    let mut i: u32 = 0;
    proof {
        vstd::arithmetic::power::lemma_pow0(2);
    }
    while i < exponent
        invariant
            i <= exponent < 64,
            power == pow(2, i as nat),
        decreases exponent - i,
    {
        proof {
            vstd::arithmetic::power::lemma_pow_adds(2, i as nat, 1);
            vstd::arithmetic::power::lemma_pow1(2);
            vstd::arithmetic::power2::lemma_pow2(i as nat + 1);
            vstd::arithmetic::power2::lemma_pow2_strictly_increases(i as nat + 1, 64);
            vstd::arithmetic::power2::lemma2_to64();
        }
        power = power * 2;
        i = i + 1;
    }
    power
}

impl Subscription {
    /// A subscription that has not begun.
    pub fn new() -> (subscription: Self)
        ensures
            subscription@ == SubscriptionState::initial(),
            subscription@.wf(),
    {
        Subscription {
            next: Action::CreateSocket(Channel::Account),
            retry_count: 0,
            latest_slot: 0,
            last_error: None,
        }
    }

    /// What to do next.
    pub fn next_action(&self) -> (action: Action)
        ensures
            action == self@.next,
    {
        self.next
    }

    /// The latest slot seen on either socket.
    pub fn latest_slot(&self) -> (slot: Slot)
        ensures
            slot == self@.latest_slot,
    {
        self.latest_slot
    }

    /// The last error that set the subscription back.
    pub fn into_error(self) -> (error: Option<ZmqError>)
        ensures
            error == self@.last_error,
    {
        self.last_error
    }

    /// Takes note of how the step of setting the sockets up went that was
    /// next. After a failure it gives the seconds to wait before going on.
    pub fn setup_done(&mut self, result: Result<(), String>) -> (wait: Option<u64>)
        requires
            old(self)@.wf(),
            old(self)@.next.is_setup(),
        ensures
            final(self)@ == old(self)@.after_setup(result),
            final(self)@.wf(),
            match wait {
                Some(seconds) => result is Err && seconds == backoff(final(self)@.retry_count),
                None => result is Ok,
            },
    {
        match result {
            Ok(()) => {
                let next = self.next.next();
                match next {
                    Action::Poll(_) => {
                        self.retry_count = 0;
                    },
                    _ => {},
                }
                self.next = next;
                None
            },
            Err(cause) => {
                let error = match self.next {
                    Action::Connect(_) => ZmqError::Connect(cause),
                    _ => ZmqError::Socket(cause),
                };
                self.last_error = Some(error);
                self.retry_count = self.retry_count + 1;
                if self.retry_count >= MAX_RETRIES {
                    self.next = Action::Close;
                } else {
                    self.next = Action::CreateSocket(Channel::Account);
                }
                Some(power_of_two(self.retry_count + 1))
            },
        }
    }

    /// Takes note of an error in reading a socket: to receive nothing leads on
    /// to the other socket, any other error to new sockets.
    fn poll_failed(&mut self, error: ZmqError)
        requires
            old(self)@.wf(),
            old(self)@.next is Poll,
        ensures
            final(self)@ == (match error {
                ZmqError::Receive(_) => SubscriptionState {
                    next: old(self)@.next.following(),
                    ..old(self)@
                },
                _ => SubscriptionState {
                    next: Action::CreateSocket(Channel::Account),
                    last_error: Some(error),
                    ..old(self)@
                },
            }),
    {
        match error {
            ZmqError::Receive(_) => {
                self.next = self.next.next();
            },
            error => {
                self.last_error = Some(error);
                self.next = Action::CreateSocket(Channel::Account);
            },
        }
    }

    /// Takes note of what was read from the account socket, and says what is
    /// due to the callbacks.
    pub fn poll_account<A>(
        &mut self,
        received: Received,
        on_account: &Vec<(AccountFilter, A)>,
    ) -> (outcome: Option<AccountOutcome>)
        requires
            old(self)@.wf(),
            old(self)@.next == Action::Poll(Channel::Account),
        ensures
            final(self)@ == old(self)@.after_poll(received),
            final(self)@.wf(),
            match received {
                Received::Message(Message::Account(msg)) => {
                    &&& outcome matches Some(AccountOutcome::Dispatch { account, hooks })
                    &&& account == msg
                    &&& hooks@ == selected_hooks(
                        on_account@,
                        msg.account.pubkey,
                        msg.account.data@,
                    )
                },
                Received::Message(other) => {
                    &&& outcome matches Some(AccountOutcome::Ignored(label))
                    &&& label@ == other.label()
                },
                _ => outcome is None,
            },
    {
        let mut latest_slot: Slot = self.latest_slot;
        let outcome = receive_and_process_account(received, on_account, &mut latest_slot);
        self.latest_slot = latest_slot;
        match outcome {
            Ok(outcome) => {
                self.next = self.next.next();
                Some(outcome)
            },
            Err(error) => {
                self.poll_failed(error);
                None
            },
        }
    }

    /// Takes note of what was read from the slot socket, and says what is due
    /// to the slot callback.
    pub fn poll_slot(&mut self, received: Received) -> (outcome: Option<SlotOutcome>)
        requires
            old(self)@.wf(),
            old(self)@.next == Action::Poll(Channel::Slot),
        ensures
            final(self)@ == old(self)@.after_poll(received),
            final(self)@.wf(),
            match received {
                Received::Message(Message::Slot(msg)) => outcome == Some(
                    if msg.slot > old(self)@.latest_slot {
                        SlotOutcome::Notify(msg.slot)
                    } else {
                        SlotOutcome::Stale(msg.slot)
                    },
                ),
                Received::Message(other) => {
                    &&& outcome matches Some(SlotOutcome::Ignored(label))
                    &&& label@ == other.label()
                },
                _ => outcome is None,
            },
    {
        let mut latest_slot: Slot = self.latest_slot;
        let outcome = receive_and_process_slot(received, &mut latest_slot);
        self.latest_slot = latest_slot;
        match outcome {
            Ok(outcome) => {
                self.next = self.next.next();
                Some(outcome)
            },
            Err(error) => {
                self.poll_failed(error);
                None
            },
        }
    }
}

} // verus!
