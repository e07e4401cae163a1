//! The record that is emitted for each block, and its one-line text.

use crate::decimal::{decimal, decimal_text};
use crate::hash::{base58_text, hash_text};
use crate::message::{total, BlockMessage, BlockMessageView, Tally};
use vstd::prelude::*;

verus! {

/// What is logged for one block: where the block stands, how many shards it
/// has, and the three totals over its shards.
#[derive(Debug, PartialEq, Eq)]
pub struct LogRecord {
    pub height: u64,
    /// The block hash, as text.
    pub hash: String,
    pub shards: usize,
    pub transactions: u128,
    pub receipts: u128,
    pub execution_outcomes: u128,
}

/// The mathematical content of a [`LogRecord`].
pub struct LogRecordView {
    pub height: nat,
    pub hash: Seq<char>,
    pub shards: nat,
    pub transactions: nat,
    pub receipts: nat,
    pub execution_outcomes: nat,
}

impl View for LogRecord {
    type V = LogRecordView;

    open spec fn view(&self) -> LogRecordView {
        LogRecordView {
            height: self.height as nat,
            hash: self.hash@,
            shards: self.shards as nat,
            transactions: self.transactions as nat,
            receipts: self.receipts as nat,
            execution_outcomes: self.execution_outcomes as nat,
        }
    }
}

impl Clone for LogRecord {
    fn clone(&self) -> (copy: Self)
        ensures
            copy@ == self@,
    {
        LogRecord {
            height: self.height,
            hash: self.hash.clone(),
            shards: self.shards,
            transactions: self.transactions,
            receipts: self.receipts,
            execution_outcomes: self.execution_outcomes,
        }
    }
}

/// The record of a block: its height, the text of its hash, the number of
/// its shards, and the sums over the shards of the transactions and the
/// receipts of the chunks that are present and of the execution outcomes.
pub open spec fn record_of(message: BlockMessageView) -> LogRecordView {
    LogRecordView {
        height: message.height,
        hash: base58_text(message.hash),
        shards: message.shards.len(),
        transactions: total(message.shards, Tally::Transactions),
        receipts: total(message.shards, Tally::Receipts),
        execution_outcomes: total(message.shards, Tally::ExecutionOutcomes),
    }
}

/// Computes the record of a block. The message is only read.
pub fn summarize(message: &BlockMessage) -> (record: LogRecord)
    ensures
        record@ == record_of(message@),
{
    LogRecord {
        height: message.header.height,
        hash: hash_text(&message.header.hash),
        shards: message.shards.len(),
        transactions: message.total(Tally::Transactions),
        receipts: message.total(Tally::Receipts),
        execution_outcomes: message.total(Tally::ExecutionOutcomes),
    }
}

/// The line under which a record is logged: `#`, the height, a space, the
/// hash, and then the shard count and the three totals, each after its
/// label, all numbers in decimal.
pub open spec fn line_text(record: LogRecordView) -> Seq<char> {
    "#"@ + decimal_text(record.height) + " "@ + record.hash + " Shards: "@ + decimal_text(
        record.shards,
    ) + ", Transactions: "@ + decimal_text(record.transactions) + ", Receipts: "@ + decimal_text(
        record.receipts,
    ) + ", ExecutionOutcomes: "@ + decimal_text(record.execution_outcomes)
}

impl LogRecord {
    /// Renders this record as its log line.
    pub fn line(&self) -> (text: String)
        ensures
            text@ == line_text(self@),
    {
        let mut text = String::from_str("#");
        text.append(decimal(self.height as u128).as_str());
        text.append(" ");
        text.append(self.hash.as_str());
        text.append(" Shards: ");
        text.append(decimal(self.shards as u128).as_str());
        text.append(", Transactions: ");
        text.append(decimal(self.transactions).as_str());
        text.append(", Receipts: ");
        text.append(decimal(self.receipts).as_str());
        text.append(", ExecutionOutcomes: ");
        text.append(decimal(self.execution_outcomes).as_str());
        text
    }
}

/// A block without shards has a record whose three totals are zero.
pub proof fn lemma_no_shards_no_counts(message: BlockMessageView)
    requires
        message.shards.len() == 0,
    ensures
        record_of(message).shards == 0,
        record_of(message).transactions == 0,
        record_of(message).receipts == 0,
        record_of(message).execution_outcomes == 0,
{
}

/// The totals of a record do not depend on the order in which the shards
/// of the block are listed.
pub proof fn lemma_record_ignores_shard_order(left: BlockMessageView, right: BlockMessageView)
    requires
        left.height == right.height,
        left.hash == right.hash,
        left.shards.to_multiset() == right.shards.to_multiset(),
    ensures
        record_of(left) == record_of(right),
{
    crate::message::lemma_total_permutation(left.shards, right.shards, Tally::Transactions);
    crate::message::lemma_total_permutation(left.shards, right.shards, Tally::Receipts);
    crate::message::lemma_total_permutation(left.shards, right.shards, Tally::ExecutionOutcomes);
    vstd::seq_lib::to_multiset_len(left.shards);
    vstd::seq_lib::to_multiset_len(right.shards);
}

} // verus!
