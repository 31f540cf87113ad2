//! The client: where to subscribe, with which options and for whom.
use vstd::prelude::*;

use crate::zmq::filter::AccountFilter;
use crate::zmq::opts::{default_opts, ZmqConnectionOpts};
use crate::zmq::subscription::{Channel, Subscription, SubscriptionState};

verus! {

/// specialized Drift ZMQ client
///
/// `A` is the type of account callbacks, `S` that of the slot callback.
pub struct DriftZmqClient<A, S> {
    account_endpoint: String,
    slot_endpoint: String,
    zmq_opts: Option<ZmqConnectionOpts>,
    on_account_hooks: Vec<(AccountFilter, A)>,
    on_slot: Option<S>,
}

/// What a client has been set to.
pub struct ClientSetup<A, S> {
    pub account_endpoint: String,
    pub slot_endpoint: String,
    pub zmq_opts: Option<ZmqConnectionOpts>,
    /// The account callbacks with their filters, in the order in which they were
    /// added.
    pub on_account_hooks: Seq<(AccountFilter, A)>,
    /// The slot callback. Where there is none, slots are not passed on.
    pub on_slot: Option<S>,
}

impl<A, S> View for DriftZmqClient<A, S> {
    type V = ClientSetup<A, S>;

    closed spec fn view(&self) -> ClientSetup<A, S> {
        ClientSetup {
            account_endpoint: self.account_endpoint,
            slot_endpoint: self.slot_endpoint,
            zmq_opts: self.zmq_opts,
            on_account_hooks: self.on_account_hooks@,
            on_slot: self.on_slot,
        }
    }
}

/// All that running a subscription takes.
pub struct SubscriptionTask<A, S> {
    pub account_endpoint: String,
    pub slot_endpoint: String,
    pub opts: ZmqConnectionOpts,
    pub on_account_hooks: Vec<(AccountFilter, A)>,
    pub on_slot: Option<S>,
    pub subscription: Subscription,
}

impl<A, S> SubscriptionTask<A, S> {
    /// Where a socket is to be connected to
    pub fn endpoint(&self, channel: Channel) -> (endpoint: &String)
        ensures
            *endpoint == (match channel {
                Channel::Account => self.account_endpoint,
                Channel::Slot => self.slot_endpoint,
            }),
    {
        match channel {
            Channel::Account => &self.account_endpoint,
            Channel::Slot => &self.slot_endpoint,
        }
    }
}

impl<A, S> DriftZmqClient<A, S> {
    /// Create a new `DriftZmqClient`
    ///
    /// It can be started by calling `subscribe`
    pub fn new(account_endpoint: String, slot_endpoint: String) -> (client: Self)
        ensures
            client@ == (ClientSetup::<A, S> {
                account_endpoint,
                slot_endpoint,
                zmq_opts: None,
                on_account_hooks: Seq::empty(),
                on_slot: None,
            }),
    {
        DriftZmqClient {
            account_endpoint,
            slot_endpoint,
            zmq_opts: None,
            on_account_hooks: Vec::new(),
            on_slot: None,
        }
    }

    /// Set ZMQ network options
    pub fn zmq_connection_opts(self, zmq_opts: ZmqConnectionOpts) -> (client: Self)
        ensures
            client@ == (ClientSetup { zmq_opts: Some(zmq_opts), ..self@ }),
    {
        DriftZmqClient { zmq_opts: Some(zmq_opts), ..self }
    }

    /// Add a callback on slot updates
    ///
    /// `on_slot` must prioritize fast handling or risk blocking the ZMQ thread
    pub fn on_slot(&mut self, on_slot: S)
        ensures
            final(self)@ == (ClientSetup { on_slot: Some(on_slot), ..old(self)@ }),
    {
        self.on_slot = Some(on_slot);
    }

    /// Add a callback for all account updates matching `filter`
    ///
    /// This may be called many times to define multiple callbacks
    ///
    /// * `filter` - filter accounts by criteria
    /// * `on_account` - fn to receive callback on filter match
    ///
    /// DEV: `on_account` must prioritize fast handling or risk blocking the ZMQ thread
    pub fn on_account(&mut self, filter: AccountFilter, on_account: A)
        ensures
            final(self)@ == (ClientSetup {
                on_account_hooks: old(self)@.on_account_hooks.push((filter, on_account)),
                ..old(self)@
            }),
    {
        self.on_account_hooks.push((filter, on_account));
    }

    /// Prepare the subscription for geyser updates: with the options that were
    /// set, or the default ones
    pub fn subscribe(self) -> (task: SubscriptionTask<A, S>)
        ensures
            task.account_endpoint == self@.account_endpoint,
            task.slot_endpoint == self@.slot_endpoint,
            task.opts == (match self@.zmq_opts {
                Some(opts) => opts,
                None => default_opts(),
            }),
            task.on_account_hooks@ == self@.on_account_hooks,
            task.on_slot == self@.on_slot,
            task.subscription@ == SubscriptionState::initial(),
            task.subscription@.wf(),
    {
        let opts = match self.zmq_opts {
            Some(opts) => opts,
            None => ZmqConnectionOpts::default(),
        };
        SubscriptionTask {
            account_endpoint: self.account_endpoint,
            slot_endpoint: self.slot_endpoint,
            opts,
            on_account_hooks: self.on_account_hooks,
            on_slot: self.on_slot,
            subscription: Subscription::new(),
        }
    }
}

} // verus!
