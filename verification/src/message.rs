//! Block messages and the totals taken over their shards.

use vstd::prelude::*;

verus! {

/// The header of a block: its height and its 32-byte hash.
#[derive(Clone, Copy, Debug, PartialEq, Eq)]
pub struct BlockHeader {
    pub height: u64,
    pub hash: [u8; 32],
}

/// What a shard includes in a block, by number of items.
#[derive(Clone, Copy, Debug, PartialEq, Eq)]
pub struct Chunk {
    /// Number of transactions in the chunk.
    pub transactions: usize,
    /// Number of receipts in the chunk.
    pub receipts: usize,
}

/// One shard of a block: its chunk, if the shard has one in this block, and
/// the number of receipt execution outcomes.
#[derive(Clone, Copy, Debug, PartialEq, Eq)]
pub struct Shard {
    pub chunk: Option<Chunk>,
    pub receipt_execution_outcomes: usize,
}

/// One block as it arrives from the stream.
#[derive(Debug, PartialEq, Eq)]
pub struct BlockMessage {
    pub header: BlockHeader,
    pub shards: Vec<Shard>,
}

impl Clone for BlockMessage {
    fn clone(&self) -> (copy: Self)
        ensures
            copy@ == self@,
    {
        let copy = BlockMessage { header: self.header, shards: self.shards.clone() };
        assert(copy.shards@ =~= self.shards@);
        copy
    }
}

/// The mathematical content of a [`BlockMessage`].
pub struct BlockMessageView {
    pub height: nat,
    pub hash: Seq<u8>,
    pub shards: Seq<Shard>,
}

impl View for BlockMessage {
    type V = BlockMessageView;

    open spec fn view(&self) -> BlockMessageView {
        BlockMessageView {
            height: self.header.height as nat,
            hash: self.header.hash@,
            shards: self.shards@,
        }
    }
}

/// The three quantities that are added up over the shards of a block.
#[derive(Clone, Copy, Debug, PartialEq, Eq)]
pub enum Tally {
    Transactions,
    Receipts,
    ExecutionOutcomes,
}

impl Shard {
    /// What this shard adds to a total: the transactions or receipts of its
    /// chunk, zero where it has no chunk, or its execution outcomes.
    pub open spec fn spec_count(self, tally: Tally) -> nat {
        match tally {
            Tally::Transactions => match self.chunk {
                Some(chunk) => chunk.transactions as nat,
                None => 0,
            },
            Tally::Receipts => match self.chunk {
                Some(chunk) => chunk.receipts as nat,
                None => 0,
            },
            Tally::ExecutionOutcomes => self.receipt_execution_outcomes as nat,
        }
    }

    /// What this shard adds to the total named by `tally`.
    pub fn count(self, tally: Tally) -> (n: usize)
        ensures
            n == self.spec_count(tally),
    {
        match tally {
            Tally::Transactions => match self.chunk {
                Some(chunk) => chunk.transactions,
                None => 0,
            },
            Tally::Receipts => match self.chunk {
                Some(chunk) => chunk.receipts,
                None => 0,
            },
            Tally::ExecutionOutcomes => self.receipt_execution_outcomes,
        }
    }
}

/// The sum over `shards` of what each adds to the total named by `tally`.
pub open spec fn total(shards: Seq<Shard>, tally: Tally) -> nat
    decreases shards.len(),
{
    if shards.len() == 0 {
        0
    } else {
        total(shards.drop_last(), tally) + shards.last().spec_count(tally)
    }
}

/// Shards appended to a list add their own total to the list's total.
pub proof fn lemma_total_concat(front: Seq<Shard>, back: Seq<Shard>, tally: Tally)
    ensures
        total(front + back, tally) == total(front, tally) + total(back, tally),
    decreases back.len(),
{
    if back.len() == 0 {
        assert(front + back =~= front);
    } else {
        assert((front + back).drop_last() =~= front + back.drop_last());
        lemma_total_concat(front, back.drop_last(), tally);
    }
}

/// Taking one shard out of a list takes what it counts out of the total.
pub proof fn lemma_total_remove(shards: Seq<Shard>, i: int, tally: Tally)
    requires
        0 <= i < shards.len(),
    ensures
        total(shards, tally) == total(shards.remove(i), tally) + shards[i].spec_count(tally),
{
    let front = shards.subrange(0, i);
    let back = shards.subrange(i + 1, shards.len() as int);
    let one = seq![shards[i]];
    assert(shards =~= front + one + back);
    assert(shards.remove(i) =~= front + back);
    assert(total(one, tally) == shards[i].spec_count(tally)) by {
        reveal_with_fuel(total, 2);
    }
    lemma_total_concat(front, one, tally);
    lemma_total_concat(front + one, back, tally);
    lemma_total_concat(front, back, tally);
}

/// A total does not depend on the order of the shards: two lists that hold
/// the same shards the same number of times have the same total.
pub proof fn lemma_total_permutation(left: Seq<Shard>, right: Seq<Shard>, tally: Tally)
    requires
        left.to_multiset() == right.to_multiset(),
    ensures
        total(left, tally) == total(right, tally),
    decreases left.len(),
{
    broadcast use vstd::seq_lib::group_to_multiset_ensures;

    if left.len() == 0 {
        assert(right.to_multiset().len() == 0);
        assert(right.len() == 0);
    } else {
        let shard = left.last();
        assert(left.to_multiset().count(shard) > 0);
        assert(right.contains(shard));
        let i = right.index_of(shard);
        assert(left.drop_last() =~= left.remove(left.len() - 1));
        assert(left.drop_last().to_multiset() == right.remove(i).to_multiset());
        lemma_total_permutation(left.drop_last(), right.remove(i), tally);
        lemma_total_remove(right, i, tally);
    }
}

/// No shard counts more than `usize::MAX`, so a total is at most that many
/// times the number of shards.
pub proof fn lemma_total_bound(shards: Seq<Shard>, tally: Tally)
    ensures
        total(shards, tally) <= shards.len() * usize::MAX,
    decreases shards.len(),
{
    if shards.len() > 0 {
        lemma_total_bound(shards.drop_last(), tally);
        assert((shards.len() - 1) * usize::MAX + usize::MAX == shards.len() * usize::MAX)
            by (nonlinear_arith);
    }
}

impl BlockMessage {
    /// Adds up over the shards of this block what each counts towards
    /// `tally`. The sum is taken in 128 bits, which no list of shards can
    /// overflow.
    pub fn total(&self, tally: Tally) -> (sum: u128)
        ensures
            sum == total(self@.shards, tally),
    {
        let mut sum: u128 = 0;
        let mut i: usize = 0;
        while i < self.shards.len()
            invariant
                i <= self.shards.len(),
                sum == total(self.shards@.take(i as int), tally),
            decreases self.shards.len() - i,
        {
            let n = self.shards[i].count(tally);
            proof {
                let seen = self.shards@.take(i + 1);
                assert(seen.drop_last() =~= self.shards@.take(i as int));
                lemma_total_bound(seen, tally);
                assert(seen.len() * usize::MAX <= usize::MAX * usize::MAX) by (nonlinear_arith)
                    requires
                        seen.len() <= usize::MAX,
                ;
                assert(usize::MAX * usize::MAX <= u128::MAX) by (nonlinear_arith)
                    requires
                        usize::MAX <= 0xFFFF_FFFF_FFFF_FFFF,
                ;
            }
            sum = sum + n as u128;
            i = i + 1;
        }
        assert(self.shards@.take(i as int) =~= self.shards@);
        sum
    }
}

} // verus!
