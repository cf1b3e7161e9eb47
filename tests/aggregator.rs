use finality_party::aggregator::{
    AggregatorAction, AggregatorEvent, BlockHash, BlockSignatureAggregator, NextHash,
};

fn hash(n: u8) -> BlockHash {
    BlockHash([n; 32])
}

fn sign(agg: &mut BlockSignatureAggregator<u64>, h: BlockHash, sig: u64) {
    let action = agg.handle_event(AggregatorEvent::<u64, Vec<u8>>::Multisigned(h, sig));
    assert!(matches!(action, AggregatorAction::Stored));
}

fn ready(agg: &mut BlockSignatureAggregator<u64>) -> Option<(BlockHash, u64)> {
    match agg.poll_next() {
        NextHash::Ready(h, s) => Some((h, s)),
        _ => None,
    }
}

#[test]
fn emits_in_submission_order_despite_completion_order() {
    let mut agg = BlockSignatureAggregator::<u64>::new();
    for n in 1..=4u8 {
        assert!(agg.start_aggregation(hash(n)));
    }
    sign(&mut agg, hash(3), 30);
    assert!(matches!(agg.poll_next(), NextHash::Pending));
    sign(&mut agg, hash(4), 40);
    sign(&mut agg, hash(1), 10);
    assert_eq!(ready(&mut agg), Some((hash(1), 10)));
    assert!(matches!(agg.poll_next(), NextHash::Pending));
    sign(&mut agg, hash(2), 20);
    assert_eq!(ready(&mut agg), Some((hash(2), 20)));
    assert_eq!(ready(&mut agg), Some((hash(3), 30)));
    assert_eq!(ready(&mut agg), Some((hash(4), 40)));
    assert!(matches!(agg.poll_next(), NextHash::Pending));
}

#[test]
fn resubmitted_hash_is_emitted_once() {
    let mut agg = BlockSignatureAggregator::<u64>::new();
    assert!(agg.start_aggregation(hash(7)));
    assert!(!agg.start_aggregation(hash(7)));
    assert!(agg.start_aggregation(hash(8)));
    assert!(!agg.start_aggregation(hash(7)));
    agg.notify_last_hash();
    sign(&mut agg, hash(7), 1);
    sign(&mut agg, hash(8), 2);
    assert_eq!(ready(&mut agg), Some((hash(7), 1)));
    assert_eq!(ready(&mut agg), Some((hash(8), 2)));
    assert!(matches!(agg.poll_next(), NextHash::Finished));
}

#[test]
fn hash_submitted_after_emission_is_ignored() {
    let mut agg = BlockSignatureAggregator::<u64>::new();
    assert!(agg.start_aggregation(hash(1)));
    sign(&mut agg, hash(1), 5);
    assert_eq!(ready(&mut agg), Some((hash(1), 5)));
    assert!(!agg.start_aggregation(hash(1)));
    agg.notify_last_hash();
    assert!(matches!(agg.poll_next(), NextHash::Finished));
}

#[test]
fn stream_ends_after_last_hash_and_drain() {
    let mut agg = BlockSignatureAggregator::<u64>::new();
    assert!(matches!(agg.poll_next(), NextHash::Pending));
    agg.notify_last_hash();
    assert!(matches!(agg.poll_next(), NextHash::Finished));

    let mut agg = BlockSignatureAggregator::<u64>::new();
    assert!(agg.start_aggregation(hash(1)));
    agg.notify_last_hash();
    assert!(matches!(agg.poll_next(), NextHash::Pending));
    sign(&mut agg, hash(1), 9);
    assert_eq!(ready(&mut agg), Some((hash(1), 9)));
    assert!(matches!(agg.poll_next(), NextHash::Finished));
    assert!(matches!(agg.poll_next(), NextHash::Finished));
}

#[test]
fn later_signature_replaces_earlier_one() {
    let mut agg = BlockSignatureAggregator::<u64>::new();
    assert!(agg.start_aggregation(hash(2)));
    sign(&mut agg, hash(2), 1);
    sign(&mut agg, hash(2), 2);
    assert_eq!(ready(&mut agg), Some((hash(2), 2)));
}

#[test]
fn messages_are_forwarded_verbatim() {
    let mut agg = BlockSignatureAggregator::<u64>::new();
    let out = agg.handle_event(AggregatorEvent::<u64, Vec<u8>>::FromMulticast(Some(vec![1, 2])));
    assert!(matches!(out, AggregatorAction::Broadcast(ref m) if *m == vec![1, 2]));
    let out = agg.handle_event(AggregatorEvent::<u64, Vec<u8>>::FromNetwork(Some(vec![3])));
    assert!(matches!(out, AggregatorAction::Deliver(ref m) if *m == vec![3]));
    let out = agg.handle_event(AggregatorEvent::<u64, Vec<u8>>::FromMulticast(None));
    assert!(matches!(out, AggregatorAction::Continue));
    assert!(matches!(agg.poll_next(), NextHash::Pending));
}

#[test]
fn closed_network_ends_stream_with_error() {
    let mut agg = BlockSignatureAggregator::<u64>::new();
    assert!(agg.start_aggregation(hash(1)));
    assert!(agg.start_aggregation(hash(2)));
    sign(&mut agg, hash(1), 1);
    let out = agg.handle_event(AggregatorEvent::<u64, Vec<u8>>::FromNetwork(None));
    assert!(matches!(out, AggregatorAction::NetworkClosed));
    assert_eq!(ready(&mut agg), Some((hash(1), 1)));
    assert!(matches!(agg.poll_next(), NextHash::Closed));
    agg.notify_last_hash();
    assert!(matches!(agg.poll_next(), NextHash::Closed));
}

#[test]
fn block_hash_comparison() {
    let a = hash(1);
    let mut bytes = [1u8; 32];
    assert!(a.same(&BlockHash(bytes)));
    bytes[31] = 2;
    assert!(!a.same(&BlockHash(bytes)));
}
