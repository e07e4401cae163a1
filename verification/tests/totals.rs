use indexer_example::message::{BlockHeader, BlockMessage, Chunk, Shard, Tally};

fn message(shards: Vec<Shard>) -> BlockMessage {
    BlockMessage { header: BlockHeader { height: 1, hash: [0u8; 32] }, shards }
}

fn shard(chunk: Option<(usize, usize)>, outcomes: usize) -> Shard {
    Shard {
        chunk: chunk.map(|(transactions, receipts)| Chunk { transactions, receipts }),
        receipt_execution_outcomes: outcomes,
    }
}

#[test]
fn no_shards_give_zero_totals() {
    let m = message(vec![]);
    assert_eq!(m.total(Tally::Transactions), 0);
    assert_eq!(m.total(Tally::Receipts), 0);
    assert_eq!(m.total(Tally::ExecutionOutcomes), 0);
}

#[test]
fn one_chunk_counts_its_transactions_and_receipts() {
    let m = message(vec![shard(Some((3, 2)), 0)]);
    assert_eq!(m.total(Tally::Transactions), 3);
    assert_eq!(m.total(Tally::Receipts), 2);
    assert_eq!(m.total(Tally::ExecutionOutcomes), 0);
}

#[test]
fn shard_without_chunk_counts_zero_transactions_and_receipts() {
    let s = shard(None, 4);
    assert_eq!(s.count(Tally::Transactions), 0);
    assert_eq!(s.count(Tally::Receipts), 0);
    assert_eq!(s.count(Tally::ExecutionOutcomes), 4);
}

#[test]
fn shard_with_chunk_counts_each_quantity() {
    let s = shard(Some((7, 11)), 13);
    assert_eq!(s.count(Tally::Transactions), 7);
    assert_eq!(s.count(Tally::Receipts), 11);
    assert_eq!(s.count(Tally::ExecutionOutcomes), 13);
}

#[test]
fn outcomes_are_summed_over_shards_with_and_without_chunk() {
    let m = message(vec![shard(None, 0), shard(Some((0, 0)), 5)]);
    assert_eq!(m.total(Tally::ExecutionOutcomes), 5);
    let m = message(vec![shard(None, 2), shard(Some((1, 4)), 5)]);
    assert_eq!(m.total(Tally::ExecutionOutcomes), 7);
    assert_eq!(m.total(Tally::Transactions), 1);
    assert_eq!(m.total(Tally::Receipts), 4);
}

#[test]
fn totals_do_not_depend_on_shard_order() {
    let a = shard(None, 2);
    let b = shard(Some((1, 4)), 5);
    let c = shard(Some((10, 0)), 1);
    let forward = message(vec![a, b, c]);
    let backward = message(vec![c, b, a]);
    let mixed = message(vec![b, a, c]);
    for tally in [Tally::Transactions, Tally::Receipts, Tally::ExecutionOutcomes] {
        assert_eq!(forward.total(tally), backward.total(tally));
        assert_eq!(forward.total(tally), mixed.total(tally));
    }
    assert_eq!(forward.total(Tally::Transactions), 11);
    assert_eq!(forward.total(Tally::Receipts), 4);
    assert_eq!(forward.total(Tally::ExecutionOutcomes), 8);
}

#[test]
fn totals_of_a_joined_list_are_the_sums_of_the_parts() {
    let front = vec![shard(Some((1, 2)), 3), shard(None, 4)];
    let back = vec![shard(Some((5, 6)), 7)];
    let mut joined = front.clone();
    joined.extend(back.iter().copied());
    let (front, back, joined) = (message(front), message(back), message(joined));
    for tally in [Tally::Transactions, Tally::Receipts, Tally::ExecutionOutcomes] {
        assert_eq!(joined.total(tally), front.total(tally) + back.total(tally));
    }
}

#[test]
fn totals_beyond_the_machine_word_do_not_overflow() {
    let big = shard(Some((usize::MAX, usize::MAX)), usize::MAX);
    let m = message(vec![big, big, big]);
    let expected = 3 * (usize::MAX as u128);
    assert_eq!(m.total(Tally::Transactions), expected);
    assert_eq!(m.total(Tally::Receipts), expected);
    assert_eq!(m.total(Tally::ExecutionOutcomes), expected);
}

#[test]
fn cloned_message_equals_its_source() {
    let m = BlockMessage {
        header: BlockHeader { height: 9, hash: [3u8; 32] },
        shards: vec![shard(Some((1, 2)), 3), shard(None, 0)],
    };
    let copy = m.clone();
    assert_eq!(copy, m);
    assert_eq!(copy.shards.len(), 2);
}
