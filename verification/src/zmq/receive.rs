//! What happens to one message of each socket.
use vstd::prelude::*;

use crate::grpc::AccountUpdate;
use crate::types::{Pubkey, Slot};
use crate::zmq::error::ZmqError;
use crate::zmq::filter::AccountFilter;
use crate::zmq::message::{Message, MessageAccount};

verus! {

/// What reading a socket once brought.
#[derive(Debug)]
pub enum Received {
    /// The socket gave no message, or only a part of one.
    Nothing(String),
    /// A message came whose bytes could not be decoded.
    Undecodable(String),
    /// A message came.
    Message(Message),
}

impl MessageAccount {
    /// The update that callbacks are given for an account message.
    pub fn account_update(&self) -> (update: AccountUpdate<'_>)
        ensures
            update.owner == self.account.owner,
            update.pubkey == self.account.pubkey,
            update.slot == self.slot,
            update.lamports == self.account.lamports,
            update.executable == self.account.executable,
            update.rent_epoch == self.account.rent_epoch,
            update.data@ == self.account.data@,
    {
        AccountUpdate {
            owner: self.account.owner,
            pubkey: self.account.pubkey,
            slot: self.slot,
            lamports: self.account.lamports,
            executable: self.account.executable,
            rent_epoch: self.account.rent_epoch,
            data: self.account.data.as_slice(),
        }
    }
}

/// The later of two slots.
pub open spec fn later(a: Slot, b: Slot) -> Slot {
    if a < b {
        b
    } else {
        a
    }
}

/// The indices of the hooks whose filter selects an account, in the order in
/// which the hooks were added.
pub open spec fn selected_hooks<A>(
    hooks: Seq<(AccountFilter, A)>,
    pubkey: Pubkey,
    data: Seq<u8>,
) -> Seq<usize>
    decreases hooks.len(),
{
    if hooks.len() == 0 {
        Seq::empty()
    } else {
        let before = selected_hooks(hooks.drop_last(), pubkey, data);
        if hooks.last().0@.selects(pubkey, data) {
            before.push((hooks.len() - 1) as usize)
        } else {
            before
        }
    }
}

/// Lists the hooks that an account is for.
pub fn select_hooks<A>(hooks: &Vec<(AccountFilter, A)>, pubkey: &Pubkey, data: &[u8]) -> (selected:
    Vec<usize>)
    ensures
        selected@ == selected_hooks(hooks@, *pubkey, data@),
{
    let mut selected: Vec<usize> = Vec::new();
    let mut i: usize = 0;
    while i < hooks.len()
        invariant
            i <= hooks@.len(),
            selected@ == selected_hooks(hooks@.take(i as int), *pubkey, data@),
        decreases hooks@.len() - i,
    {
        proof {
            assert(hooks@.take(i + 1).drop_last() =~= hooks@.take(i as int));
        }
        if hooks[i].0.matches(pubkey, data) {
            selected.push(i);
        }
        i = i + 1;
    }
    assert(hooks@.take(i as int) =~= hooks@);
    selected
}

/// What became of a message on the account socket.
#[derive(Debug)]
pub enum AccountOutcome {
    /// The update of `account` is due to the callbacks with these indices, in
    /// this order.
    Dispatch { account: Box<MessageAccount>, hooks: Vec<usize> },
    /// A message of another kind came; this is its label.
    Ignored(&'static str),
}

/// What became of a message on the slot socket.
#[derive(Debug)]
pub enum SlotOutcome {
    /// The slot callback is due, with this slot.
    Notify(Slot),
    /// The slot is no later than one that was seen before.
    Stale(Slot),
    /// A message of another kind came; this is its label.
    Ignored(&'static str),
}

/// Processes what was read from the account socket.
///
/// An account message raises the latest slot to its own and is due to every
/// callback whose filter selects the account.
pub fn receive_and_process_account<A>(
    received: Received,
    on_account: &Vec<(AccountFilter, A)>,
    latest_slot: &mut Slot,
) -> (outcome: Result<AccountOutcome, ZmqError>)
    ensures
        match received {
            Received::Nothing(cause) => {
                &&& outcome == Err::<AccountOutcome, ZmqError>(ZmqError::Receive(cause))
                &&& *final(latest_slot) == *old(latest_slot)
            },
            Received::Undecodable(cause) => {
                &&& outcome == Err::<AccountOutcome, ZmqError>(ZmqError::Deserialize(cause))
                &&& *final(latest_slot) == *old(latest_slot)
            },
            Received::Message(Message::Account(msg)) => {
                &&& outcome matches Ok(AccountOutcome::Dispatch { account, hooks })
                &&& account == msg
                &&& hooks@ == selected_hooks(
                    on_account@,
                    msg.account.pubkey,
                    msg.account.data@,
                )
                &&& *final(latest_slot) == later(*old(latest_slot), msg.slot)
            },
            Received::Message(other) => {
                &&& outcome matches Ok(AccountOutcome::Ignored(label))
                &&& label@ == other.label()
                &&& *final(latest_slot) == *old(latest_slot)
            },
        },
{
    match received {
        Received::Nothing(cause) => Err(ZmqError::Receive(cause)),
        Received::Undecodable(cause) => Err(ZmqError::Deserialize(cause)),
        Received::Message(message) => match message {
            Message::Account(account_msg) => {
                let slot: Slot = account_msg.slot;
                if slot > *latest_slot {
                    *latest_slot = slot;
                }
                let hooks = select_hooks(
                    on_account,
                    &account_msg.account.pubkey,
                    account_msg.account.data.as_slice(),
                );
                Ok(AccountOutcome::Dispatch { account: account_msg, hooks })
            },
            _ => Ok(AccountOutcome::Ignored(message.get_type())),
        },
    }
}

/// Processes what was read from the slot socket.
///
/// A slot message that is later than every slot seen before becomes the latest
/// slot and is due to the slot callback.
pub fn receive_and_process_slot(received: Received, latest_slot: &mut Slot) -> (outcome: Result<
    SlotOutcome,
    ZmqError,
>)
    ensures
        match received {
            Received::Nothing(cause) => {
                &&& outcome == Err::<SlotOutcome, ZmqError>(ZmqError::Receive(cause))
                &&& *final(latest_slot) == *old(latest_slot)
            },
            Received::Undecodable(cause) => {
                &&& outcome == Err::<SlotOutcome, ZmqError>(ZmqError::Deserialize(cause))
                &&& *final(latest_slot) == *old(latest_slot)
            },
            Received::Message(Message::Slot(msg)) => {
                &&& outcome == Ok::<SlotOutcome, ZmqError>(
                    if msg.slot > *old(latest_slot) {
                        SlotOutcome::Notify(msg.slot)
                    } else {
                        SlotOutcome::Stale(msg.slot)
                    },
                )
                &&& *final(latest_slot) == later(*old(latest_slot), msg.slot)
            },
            Received::Message(other) => {
                &&& outcome matches Ok(SlotOutcome::Ignored(label))
                &&& label@ == other.label()
                &&& *final(latest_slot) == *old(latest_slot)
            },
        },
{
    match received {
        Received::Nothing(cause) => Err(ZmqError::Receive(cause)),
        Received::Undecodable(cause) => Err(ZmqError::Deserialize(cause)),
        Received::Message(message) => match message {
            Message::Slot(slot_msg) => {
                let slot: Slot = slot_msg.slot;
                if slot > *latest_slot {
                    *latest_slot = slot;
                    Ok(SlotOutcome::Notify(slot))
                } else {
                    Ok(SlotOutcome::Stale(slot))
                }
            },
            _ => Ok(SlotOutcome::Ignored(message.get_type())),
        },
    }
}

} // verus!
