//! Messages that the publisher sends.
use std::collections::HashSet;
use std::time::SystemTime;

use vstd::prelude::*;

use crate::keys::clone_key_set;
use crate::text::same_text;
use crate::types::{HashBytes, Pubkey, Signature, Slot, UnixTimestamp};
use crate::zmq::laws::law_type_names_differ;
use crate::zmq::ledger::{
    InnerInstructions, LoadedAddresses, Reward, RewardsAndNumPartitions, Transaction,
    TransactionReturnData,
};

verus! {

/// The standard library's `std::time::SystemTime`, carried as it came.
#[verifier::external_type_specification]
#[verifier::external_body]
pub struct ExSystemTime(SystemTime);

/// `std::time::SystemTime` is `Copy`: `clone` gives the same time.
pub assume_specification[ <SystemTime as Clone>::clone ](time: &SystemTime) -> (copy: SystemTime)
    ensures
        copy == *time,
;

/// Reads the clock with `std::time::SystemTime::now`. Nothing is claimed of
/// the time that it gives.
#[verifier::external_body]
fn system_time_now() -> SystemTime {
    SystemTime::now()
}

#[derive(Debug, Clone, Copy, PartialEq, Eq, Hash, Structural)]
pub enum MessageType {
    Tick,
    Slot,
    Account,
    Transaction,
    Entry,
    BlockMeta,
    Block,
    AccAndTx,
}

impl MessageType {
    /// The name of a message type.
    pub open spec fn name(self) -> Seq<char> {
        match self {
            MessageType::Tick => "Tick"@,
            MessageType::Slot => "Slot"@,
            MessageType::Account => "Account"@,
            MessageType::Transaction => "Transaction"@,
            MessageType::Entry => "Entry"@,
            MessageType::BlockMeta => "BlockMeta"@,
            MessageType::Block => "Block"@,
            MessageType::AccAndTx => "AccAndTx"@,
        }
    }

    pub fn as_str(&self) -> (name: &'static str)
        ensures
            name@ == self.name(),
    {
        match self {
            MessageType::Tick => "Tick",
            MessageType::Slot => "Slot",
            MessageType::Account => "Account",
            MessageType::Transaction => "Transaction",
            MessageType::Entry => "Entry",
            MessageType::BlockMeta => "BlockMeta",
            MessageType::Block => "Block",
            MessageType::AccAndTx => "AccAndTx",
        }
    }

    /// The message type with the name `s`, if there is one.
    pub fn parse_variant(s: &str) -> (parsed: Option<Self>)
        ensures
            forall|t: MessageType| #[trigger] t.name() == s@ <==> parsed == Some(t),
    {
        let parsed = if same_text(s, "Slot") {
            Some(Self::Slot)
        } else if same_text(s, "Account") {
            Some(Self::Account)
        } else if same_text(s, "Transaction") {
            Some(Self::Transaction)
        } else if same_text(s, "Entry") {
            Some(Self::Entry)
        } else if same_text(s, "BlockMeta") {
            Some(Self::BlockMeta)
        } else if same_text(s, "Block") {
            Some(Self::Block)
        } else if same_text(s, "AccAndTx") {
            Some(Self::AccAndTx)
        } else if same_text(s, "Tick") {
            Some(Self::Tick)
        } else {
            None
        };
        proof {
            if let Some(p) = parsed {
                assert(p.name() == s@);
                assert forall|t: MessageType| #[trigger] t.name() == s@ implies t == p by {
                    law_type_names_differ(t, p);
                }
            }
        }
        parsed
    }
}

#[derive(Debug, Clone, PartialEq)]
pub struct MessageAccountInfo {
    pub pubkey: Pubkey,
    pub lamports: u64,
    pub owner: Pubkey,
    pub executable: bool,
    pub rent_epoch: u64,
    pub data: Vec<u8>,
    pub write_version: u64,
    pub txn_signature: Option<Signature>,
}

#[derive(Debug, Clone, PartialEq)]
pub struct MessageAccount {
    pub account: MessageAccountInfo,
    pub slot: Slot,
    pub is_startup: bool,
    pub created_at: SystemTime,
}

#[derive(Debug, Clone, PartialEq)]
pub struct MessageSlot {
    pub slot: Slot,
    pub parent: Option<Slot>,
    pub status: SlotStatus,
    pub dead_error: Option<String>,
    pub created_at: SystemTime,
}

#[derive(Debug, Clone, Copy, PartialEq, Eq, PartialOrd, Ord)]
pub enum CommitmentLevel {
    Processed,
    Confirmed,
    Finalized,
}

impl CommitmentLevel {
    /// The name of a commitment level.
    pub open spec fn name(self) -> Seq<char> {
        match self {
            CommitmentLevel::Processed => "processed"@,
            CommitmentLevel::Confirmed => "confirmed"@,
            CommitmentLevel::Finalized => "finalized"@,
        }
    }

    pub fn as_str(&self) -> (name: &'static str)
        ensures
            name@ == self.name(),
    {
        match self {
            CommitmentLevel::Processed => "processed",
            CommitmentLevel::Confirmed => "confirmed",
            CommitmentLevel::Finalized => "finalized",
        }
    }
}

#[derive(Debug, Clone, Copy, PartialEq, Eq, PartialOrd, Ord, Structural)]
pub enum SlotStatus {
    Processed,
    Confirmed,
    Finalized,
    FirstShredReceived,
    Completed,
    CreatedBank,
    Dead,
}

impl SlotStatus {
    /// The name of a slot status.
    pub open spec fn name(self) -> Seq<char> {
        match self {
            SlotStatus::Processed => "processed"@,
            SlotStatus::Confirmed => "confirmed"@,
            SlotStatus::Finalized => "finalized"@,
            SlotStatus::FirstShredReceived => "first_shread_received"@,
            SlotStatus::Completed => "completed"@,
            SlotStatus::CreatedBank => "created_bank"@,
            SlotStatus::Dead => "dead"@,
        }
    }

    pub fn as_str(&self) -> (name: &'static str)
        ensures
            name@ == self.name(),
    {
        match self {
            SlotStatus::Processed => "processed",
            SlotStatus::Confirmed => "confirmed",
            SlotStatus::Finalized => "finalized",
            SlotStatus::FirstShredReceived => "first_shread_received",
            SlotStatus::Completed => "completed",
            SlotStatus::CreatedBank => "created_bank",
            SlotStatus::Dead => "dead",
        }
    }
}

/// The slot status that a commitment level stands for.
pub open spec fn committed_status(level: CommitmentLevel) -> SlotStatus {
    match level {
        CommitmentLevel::Processed => SlotStatus::Processed,
        CommitmentLevel::Confirmed => SlotStatus::Confirmed,
        CommitmentLevel::Finalized => SlotStatus::Finalized,
    }
}

impl PartialEq<SlotStatus> for CommitmentLevel {
    /// Whether `other` is the status that the level stands for.
    fn eq(&self, other: &SlotStatus) -> (same: bool) {
        match self {
            CommitmentLevel::Processed => *other == SlotStatus::Processed,
            CommitmentLevel::Confirmed => *other == SlotStatus::Confirmed,
            CommitmentLevel::Finalized => *other == SlotStatus::Finalized,
        }
    }
}

impl vstd::std_specs::cmp::PartialEqSpecImpl<SlotStatus> for CommitmentLevel {
    open spec fn obeys_eq_spec() -> bool {
        true
    }

    open spec fn eq_spec(&self, other: &SlotStatus) -> bool {
        *other == committed_status(*self)
    }
}

#[derive(Debug, Clone, PartialEq)]
pub struct TransactionStatusMetaInfo {
    pub fee: u64,
    pub pre_balances: Vec<u64>,
    pub post_balances: Vec<u64>,
    pub inner_instructions: Option<Vec<InnerInstructions>>,
    pub log_messages: Option<Vec<String>>,
    pub rewards: Option<Vec<Reward>>,
    pub loaded_addresses: LoadedAddresses,
    pub return_data: Option<TransactionReturnData>,
    pub compute_units_consumed: Option<u64>,
    pub cost_units: Option<u64>,
}

#[derive(Debug, PartialEq)]
pub struct MessageTransactionInfo {
    pub signature: Signature,
    pub is_vote: bool,
    pub transaction: Transaction,
    pub index: usize,
    pub account_keys: HashSet<Pubkey>,
}

impl Clone for MessageTransactionInfo {
    fn clone(&self) -> (copy: Self)
        ensures
            copy.signature == self.signature,
            copy.is_vote == self.is_vote,
            cloned(self.transaction, copy.transaction),
            copy.index == self.index,
            copy.account_keys@ == self.account_keys@,
    {
        MessageTransactionInfo {
            signature: self.signature,
            is_vote: self.is_vote,
            transaction: self.transaction.clone(),
            index: self.index,
            account_keys: clone_key_set(&self.account_keys),
        }
    }
}

#[derive(Debug, Clone, PartialEq)]
pub struct MessageTransaction {
    pub transaction: MessageTransactionInfo,
    pub slot: u64,
    pub created_at: SystemTime,
}

#[derive(Debug, Clone, Copy, PartialEq)]
pub struct MessageEntry {
    pub slot: u64,
    pub index: usize,
    pub num_hashes: u64,
    pub hash: HashBytes,
    pub executed_transaction_count: u64,
    pub starting_transaction_index: u64,
    pub created_at: SystemTime,
}

impl Default for MessageEntry {
    /// An entry of zeros, created now.
    fn default() -> (entry: Self)
        ensures
            entry.slot == 0,
            entry.index == 0,
            entry.num_hashes == 0,
            entry.hash@ == Seq::new(32, |i: int| 0u8),
            entry.executed_transaction_count == 0,
            entry.starting_transaction_index == 0,
    {
        MessageEntry {
            slot: 0,
            index: 0,
            num_hashes: 0,
            hash: [0;32],
            executed_transaction_count: 0,
            starting_transaction_index: 0,
            created_at: system_time_now(),
        }
    }
}

#[derive(Debug, Clone, PartialEq)]
pub struct MessageBlockMeta {
    pub parent_slot: Slot,
    pub parent_blockhash: HashBytes,
    pub slot: Slot,
    pub blockhash: HashBytes,
    pub rewards: RewardsAndNumPartitions,
    pub block_time: Option<UnixTimestamp>,
    pub block_height: Option<u64>,
    pub executed_transaction_count: u64,
    pub entry_count: u64,
    pub created_at: SystemTime,
}

#[derive(Debug, Clone, PartialEq)]
pub struct MessageBlock {
    pub meta: MessageBlockMeta,
    pub transactions: Vec<MessageTransactionInfo>,
}

#[derive(Debug, Clone, PartialEq)]
pub struct MessageAccAndTx {
    pub account: Vec<MessageAccount>,
    pub transaction: MessageTransaction,
    pub slot: u64,
    pub created_at: SystemTime,
}

#[derive(Debug, Clone, PartialEq)]
pub enum TickSource {
    /// Tick generated from PohRecorder (periodic, real-time)
    PohRecorder,
    /// Tick processed from BlockstoreProcessor (batched, from ledger)
    BlockstoreProcessor,
}

#[derive(Debug, Clone, PartialEq)]
pub struct MessageTick {
    pub slot: Slot,
    pub tick_index: u64,
    pub num_hashes: u64,
    pub hash: HashBytes,
    pub leader: Option<Pubkey>,
    pub source: TickSource,
    pub created_at: SystemTime,
}

#[derive(Debug, Clone, PartialEq)]
pub enum Message {
    Slot(MessageSlot),
    Account(Box<MessageAccount>),
    Transaction(Box<MessageTransaction>),
    Entry(MessageEntry),
    BlockMeta(MessageBlockMeta),
    Block(MessageBlock),
    AccAndTx(Box<MessageAccAndTx>),
    Tick(MessageTick),
}

impl Default for Message {
    /// The default entry.
    fn default() -> (message: Self)
        ensures
            message matches Message::Entry(entry) && call_ensures(
                MessageEntry::default,
                (),
                entry,
            ),
    {
        Message::Entry(MessageEntry::default())
    }
}

impl Message {
    /// The slot that a message is about.
    pub open spec fn slot(self) -> Slot {
        match self {
            Message::Slot(msg) => msg.slot,
            Message::Account(msg) => msg.slot,
            Message::Transaction(msg) => msg.slot,
            Message::Entry(msg) => msg.slot,
            Message::BlockMeta(msg) => msg.slot,
            Message::Block(msg) => msg.meta.slot,
            Message::AccAndTx(msg) => msg.slot,
            Message::Tick(msg) => msg.slot,
        }
    }

    /// The type of a message.
    pub open spec fn message_type(self) -> MessageType {
        match self {
            Message::Slot(_) => MessageType::Slot,
            Message::Account(_) => MessageType::Account,
            Message::Transaction(_) => MessageType::Transaction,
            Message::Entry(_) => MessageType::Entry,
            Message::BlockMeta(_) => MessageType::BlockMeta,
            Message::Block(_) => MessageType::Block,
            Message::AccAndTx(_) => MessageType::AccAndTx,
            Message::Tick(_) => MessageType::Tick,
        }
    }

    /// How a message is labelled in logs: by the name of its type, but for
    /// account-and-transaction messages, whose label is short.
    pub open spec fn label(self) -> Seq<char> {
        match self {
            Message::AccAndTx(_) => "Acctx"@,
            _ => self.message_type().name(),
        }
    }

    pub fn get_slot(&self) -> (slot: u64)
        ensures
            slot == self.slot(),
    {
        match self {
            Message::Tick(msg) => msg.slot,
            Message::Slot(msg) => msg.slot,
            Message::Account(msg) => msg.slot,
            Message::Transaction(msg) => msg.slot,
            Message::Entry(msg) => msg.slot,
            Message::BlockMeta(msg) => msg.slot,
            Message::Block(msg) => msg.meta.slot,
            Message::AccAndTx(msg) => msg.slot,
        }
    }

    pub fn get_type(&self) -> (label: &'static str)
        ensures
            label@ == self.label(),
    {
        match self {
            Message::Tick(_) => "Tick",
            Message::Slot(_) => "Slot",
            Message::Account(_) => "Account",
            Message::Transaction(_) => "Transaction",
            Message::Entry(_) => "Entry",
            Message::BlockMeta(_) => "BlockMeta",
            Message::Block(_) => "Block",
            Message::AccAndTx(_) => "Acctx",
        }
    }

    pub fn get_type_enum(&self) -> (message_type: MessageType)
        ensures
            message_type == self.message_type(),
    {
        match self {
            Message::Tick(_) => MessageType::Tick,
            Message::Slot(_) => MessageType::Slot,
            Message::Account(_) => MessageType::Account,
            Message::Transaction(_) => MessageType::Transaction,
            Message::Entry(_) => MessageType::Entry,
            Message::BlockMeta(_) => MessageType::BlockMeta,
            Message::Block(_) => MessageType::Block,
            Message::AccAndTx(_) => MessageType::AccAndTx,
        }
    }
}

} // verus!
