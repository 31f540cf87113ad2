use std::collections::HashSet;
use std::time::{Duration, SystemTime};

use drift_stream::zmq::ledger::{
    MessageHeader, RewardsAndNumPartitions, Transaction, TransactionMessage,
};
use drift_stream::zmq::message::{
    CommitmentLevel, Message, MessageAccAndTx, MessageAccount, MessageAccountInfo, MessageBlock,
    MessageBlockMeta, MessageEntry, MessageSlot, MessageTick, MessageTransaction,
    MessageTransactionInfo, MessageType, SlotStatus, TickSource,
};

fn account(slot: u64) -> MessageAccount {
    MessageAccount {
        account: MessageAccountInfo {
            pubkey: [1; 32],
            lamports: 5,
            owner: [2; 32],
            executable: false,
            rent_epoch: 7,
            data: vec![1, 2, 3],
            write_version: 9,
            txn_signature: None,
        },
        slot,
        is_startup: false,
        created_at: SystemTime::UNIX_EPOCH,
    }
}

fn transaction_info() -> MessageTransactionInfo {
    let mut account_keys = HashSet::new();
    account_keys.insert([4; 32]);
    MessageTransactionInfo {
        signature: [3; 64],
        is_vote: false,
        transaction: Transaction {
            signatures: vec![[3; 64]],
            message: TransactionMessage {
                header: MessageHeader {
                    num_required_signatures: 1,
                    num_readonly_signed_accounts: 0,
                    num_readonly_unsigned_accounts: 1,
                },
                account_keys: vec![[4; 32]],
                recent_blockhash: [5; 32],
                instructions: vec![],
            },
        },
        index: 2,
        account_keys,
    }
}

fn transaction(slot: u64) -> MessageTransaction {
    MessageTransaction {
        transaction: transaction_info(),
        slot,
        created_at: SystemTime::UNIX_EPOCH,
    }
}

fn block_meta(slot: u64) -> MessageBlockMeta {
    MessageBlockMeta {
        parent_slot: slot - 1,
        parent_blockhash: [6; 32],
        slot,
        blockhash: [7; 32],
        rewards: RewardsAndNumPartitions {
            rewards: vec![],
            num_partitions: None,
        },
        block_time: Some(1),
        block_height: Some(2),
        executed_transaction_count: 3,
        entry_count: 4,
        created_at: SystemTime::UNIX_EPOCH,
    }
}

fn messages() -> Vec<(Message, u64, &'static str, MessageType)> {
    vec![
        (
            Message::Slot(MessageSlot {
                slot: 11,
                parent: Some(10),
                status: SlotStatus::Confirmed,
                dead_error: None,
                created_at: SystemTime::UNIX_EPOCH,
            }),
            11,
            "Slot",
            MessageType::Slot,
        ),
        (
            Message::Account(Box::new(account(12))),
            12,
            "Account",
            MessageType::Account,
        ),
        (
            Message::Transaction(Box::new(transaction(13))),
            13,
            "Transaction",
            MessageType::Transaction,
        ),
        (
            Message::Entry(MessageEntry {
                slot: 14,
                ..MessageEntry::default()
            }),
            14,
            "Entry",
            MessageType::Entry,
        ),
        (
            Message::BlockMeta(block_meta(15)),
            15,
            "BlockMeta",
            MessageType::BlockMeta,
        ),
        (
            Message::Block(MessageBlock {
                meta: block_meta(16),
                transactions: vec![transaction_info()],
            }),
            16,
            "Block",
            MessageType::Block,
        ),
        (
            Message::AccAndTx(Box::new(MessageAccAndTx {
                account: vec![account(1)],
                transaction: transaction(2),
                slot: 17,
                created_at: SystemTime::UNIX_EPOCH,
            })),
            17,
            "Acctx",
            MessageType::AccAndTx,
        ),
        (
            Message::Tick(MessageTick {
                slot: 18,
                tick_index: 1,
                num_hashes: 2,
                hash: [8; 32],
                leader: None,
                source: TickSource::PohRecorder,
                created_at: SystemTime::UNIX_EPOCH,
            }),
            18,
            "Tick",
            MessageType::Tick,
        ),
    ]
}

#[test]
fn every_message_gives_its_slot() {
    for (message, slot, _, _) in messages() {
        assert_eq!(message.get_slot(), slot);
    }
}

#[test]
fn every_message_gives_its_label_and_type() {
    for (message, _, label, message_type) in messages() {
        assert_eq!(message.get_type(), label);
        assert_eq!(message.get_type_enum(), message_type);
    }
}

#[test]
fn labels_are_type_names_but_for_account_and_transaction() {
    for (message, _, _, _) in messages() {
        let name = message.get_type_enum().as_str();
        if message.get_type_enum() == MessageType::AccAndTx {
            assert_ne!(message.get_type(), name);
            assert_eq!(MessageType::parse_variant(message.get_type()), None);
        } else {
            assert_eq!(message.get_type(), name);
        }
    }
}

#[test]
fn type_names_parse_back() {
    let types = [
        (MessageType::Tick, "Tick"),
        (MessageType::Slot, "Slot"),
        (MessageType::Account, "Account"),
        (MessageType::Transaction, "Transaction"),
        (MessageType::Entry, "Entry"),
        (MessageType::BlockMeta, "BlockMeta"),
        (MessageType::Block, "Block"),
        (MessageType::AccAndTx, "AccAndTx"),
    ];
    for (message_type, name) in types {
        assert_eq!(message_type.as_str(), name);
        assert_eq!(MessageType::parse_variant(name), Some(message_type));
    }
}

#[test]
fn other_names_do_not_parse() {
    for name in ["", "slot", "Slo", "Slots", "Acctx", "Bl\u{f6}ck", " Tick"] {
        assert_eq!(MessageType::parse_variant(name), None);
    }
}

#[test]
fn commitment_levels_have_names() {
    assert_eq!(CommitmentLevel::Processed.as_str(), "processed");
    assert_eq!(CommitmentLevel::Confirmed.as_str(), "confirmed");
    assert_eq!(CommitmentLevel::Finalized.as_str(), "finalized");
}

#[test]
fn slot_statuses_have_names() {
    assert_eq!(SlotStatus::Processed.as_str(), "processed");
    assert_eq!(SlotStatus::Confirmed.as_str(), "confirmed");
    assert_eq!(SlotStatus::Finalized.as_str(), "finalized");
    assert_eq!(
        SlotStatus::FirstShredReceived.as_str(),
        "first_shread_received"
    );
    assert_eq!(SlotStatus::Completed.as_str(), "completed");
    assert_eq!(SlotStatus::CreatedBank.as_str(), "created_bank");
    assert_eq!(SlotStatus::Dead.as_str(), "dead");
}

#[test]
fn levels_equal_the_statuses_of_the_same_name() {
    let levels = [
        CommitmentLevel::Processed,
        CommitmentLevel::Confirmed,
        CommitmentLevel::Finalized,
    ];
    let statuses = [
        SlotStatus::Processed,
        SlotStatus::Confirmed,
        SlotStatus::Finalized,
        SlotStatus::FirstShredReceived,
        SlotStatus::Completed,
        SlotStatus::CreatedBank,
        SlotStatus::Dead,
    ];
    for level in levels {
        for status in statuses {
            assert_eq!(level == status, level.as_str() == status.as_str());
        }
    }
    assert!(CommitmentLevel::Confirmed == SlotStatus::Confirmed);
    assert!(CommitmentLevel::Confirmed != SlotStatus::Completed);
}

#[test]
fn default_message_is_an_entry_of_zeros_made_now() {
    let before = SystemTime::now();
    match Message::default() {
        Message::Entry(entry) => {
            assert_eq!(entry.slot, 0);
            assert_eq!(entry.index, 0);
            assert_eq!(entry.num_hashes, 0);
            assert_eq!(entry.hash, [0; 32]);
            assert_eq!(entry.executed_transaction_count, 0);
            assert_eq!(entry.starting_transaction_index, 0);
            assert!(entry.created_at + Duration::from_secs(60) > before);
        }
        other => panic!("not an entry: {}", other.get_type()),
    }
}

#[test]
fn clones_of_messages_are_equal() {
    for (message, _, _, _) in messages() {
        assert_eq!(message.clone(), message);
    }
    let mut more = transaction_info();
    more.account_keys.insert([9; 32]);
    assert_eq!(more.clone().account_keys.len(), 2);
    assert_ne!(more.clone(), transaction_info());
}
