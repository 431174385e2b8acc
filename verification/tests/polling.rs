use fluxus::utils::models::StreamError;
use sui_source::source::SuiSource;
use sui_source::transaction::{RawPayload, RawTransaction};

fn bare(digest: &str, timestamp_ms: Option<u64>, checkpoint: Option<u64>) -> RawTransaction {
    RawTransaction { digest: digest.to_string(), timestamp_ms, checkpoint, payload: None }
}

fn full(digest: &str, timestamp_ms: u64, checkpoint: u64) -> RawTransaction {
    RawTransaction {
        digest: digest.to_string(),
        timestamp_ms: Some(timestamp_ms),
        checkpoint: Some(checkpoint),
        payload: Some(RawPayload {
            kind: "ProgrammableTransaction".to_string(),
            sender: Some("0x0000000000000000000000000000000000000000000000000000000000000002"
                .to_string()),
            rendering: "V1(..)".to_string(),
        }),
    }
}

fn ready(interval_ms: u64, max_transactions: usize) -> SuiSource<&'static str> {
    let mut source = SuiSource::new("http://node".to_string(), interval_ms, max_transactions);
    assert!(source.initialize(Ok("client")).is_ok());
    source
}

#[test]
fn first_poll_emits_the_head_of_the_batch() {
    let mut source = ready(1000, 5);
    let plan = source.plan_poll().unwrap();
    assert_eq!(plan.delay_ms, 1000);
    assert_eq!(plan.limit, 5);
    let record = source.poll_next(Ok(vec![bare("0xAA", Some(100), None)])).unwrap().unwrap();
    assert_eq!(record.data.transaction_id, "0xAA");
    assert_eq!(record.data.timestamp, 100);
    assert_eq!(record.data.recipient, None);
    assert_eq!(record.data.amount, None);
    assert_eq!(source.last_processed_id().map(String::as_str), Some("0xAA"));
}

#[test]
fn second_poll_with_the_same_head_emits_nothing() {
    let mut source = ready(1000, 5);
    assert!(source.poll_next(Ok(vec![bare("0xAA", Some(100), None)])).unwrap().is_some());
    let second = source.poll_next(Ok(vec![bare("0xAA", Some(100), None)])).unwrap();
    assert!(second.is_none());
    assert_eq!(source.last_processed_id().map(String::as_str), Some("0xAA"));
}

#[test]
fn third_poll_with_a_new_head_emits_it() {
    let mut source = ready(1000, 5);
    assert!(source.poll_next(Ok(vec![bare("0xAA", Some(100), None)])).unwrap().is_some());
    assert!(source.poll_next(Ok(vec![bare("0xAA", Some(100), None)])).unwrap().is_none());
    let record = source.poll_next(Ok(vec![bare("0xBB", Some(200), None)])).unwrap().unwrap();
    assert_eq!(record.data.transaction_id, "0xBB");
    assert_eq!(record.data.timestamp, 200);
    assert_eq!(source.last_processed_id().map(String::as_str), Some("0xBB"));
}

#[test]
fn failed_fetch_is_a_runtime_error_with_the_cause() {
    let mut source = ready(1000, 5);
    let result = source.poll_next(Err("transport error: connection reset".to_string()));
    match result {
        Err(StreamError::Runtime(message)) => {
            assert!(message.contains("connection reset"));
            assert_eq!(message, "transport error: connection reset");
        }
        other => panic!("expected a runtime error, got {other:?}"),
    }
    assert!(source.is_initialized());
    assert!(source.last_processed_id().is_none());
}

#[test]
fn failed_fetch_keeps_the_memory_of_what_was_emitted() {
    let mut source = ready(1000, 5);
    assert!(source.poll_next(Ok(vec![full("0xAA", 100, 7)])).unwrap().is_some());
    assert!(source.poll_next(Err("timeout".to_string())).is_err());
    assert_eq!(source.last_processed_id().map(String::as_str), Some("0xAA"));
    assert_eq!(source.last_processed_checkpoint(), Some(7));
    assert!(source.poll_next(Ok(vec![full("0xAA", 100, 7)])).unwrap().is_none());
}

#[test]
fn empty_batch_yields_nothing_and_is_no_error() {
    let mut source = ready(1000, 5);
    assert!(source.poll_next(Ok(vec![])).unwrap().is_none());
    assert!(source.last_processed_id().is_none());
    assert!(source.poll_next(Ok(vec![full("0xAA", 100, 7)])).unwrap().is_some());
    assert!(source.poll_next(Ok(vec![])).unwrap().is_none());
    assert_eq!(source.last_processed_id().map(String::as_str), Some("0xAA"));
}

#[test]
fn only_the_head_of_a_batch_is_emitted() {
    let mut source = ready(10, 3);
    let batch = vec![full("0xCC", 300, 9), full("0xBB", 200, 8), full("0xAA", 100, 7)];
    let record = source.poll_next(Ok(batch)).unwrap().unwrap();
    assert_eq!(record.data.transaction_id, "0xCC");
    assert_eq!(record.data.timestamp, 300);
    assert_eq!(source.last_processed_id().map(String::as_str), Some("0xCC"));
    assert_eq!(source.last_processed_checkpoint(), Some(9));
}

#[test]
fn suppression_looks_at_the_head_alone() {
    let mut source = ready(10, 3);
    assert!(source.poll_next(Ok(vec![full("0xBB", 200, 8), full("0xAA", 100, 7)])).unwrap().is_some());
    let same_head = vec![full("0xBB", 200, 8), full("0x99", 50, 6)];
    assert!(source.poll_next(Ok(same_head)).unwrap().is_none());
    let older_head = vec![full("0xAA", 100, 7), full("0xBB", 200, 8)];
    let record = source.poll_next(Ok(older_head)).unwrap().unwrap();
    assert_eq!(record.data.transaction_id, "0xAA");
}

#[test]
fn a_head_seen_before_the_last_one_is_emitted_again() {
    let mut source = ready(10, 3);
    assert!(source.poll_next(Ok(vec![bare("0xAA", Some(1), None)])).unwrap().is_some());
    assert!(source.poll_next(Ok(vec![bare("0xBB", Some(2), None)])).unwrap().is_some());
    let record = source.poll_next(Ok(vec![bare("0xAA", Some(1), None)])).unwrap().unwrap();
    assert_eq!(record.data.transaction_id, "0xAA");
}

#[test]
fn checkpoint_follows_the_emitted_transaction() {
    let mut source = ready(10, 3);
    assert!(source.poll_next(Ok(vec![full("0xAA", 100, 7)])).unwrap().is_some());
    assert_eq!(source.last_processed_checkpoint(), Some(7));
    assert!(source.poll_next(Ok(vec![bare("0xBB", Some(200), None)])).unwrap().is_some());
    assert_eq!(source.last_processed_checkpoint(), None);
    assert!(source.poll_next(Ok(vec![full("0xCC", 300, 9)])).unwrap().is_some());
    assert_eq!(source.last_processed_checkpoint(), Some(9));
}

#[test]
fn suppressed_poll_leaves_the_checkpoint_alone() {
    let mut source = ready(10, 3);
    assert!(source.poll_next(Ok(vec![full("0xAA", 100, 7)])).unwrap().is_some());
    assert!(source.poll_next(Ok(vec![full("0xAA", 100, 8)])).unwrap().is_none());
    assert_eq!(source.last_processed_checkpoint(), Some(7));
}

#[test]
fn record_carries_the_translated_event_and_a_stamp() {
    let mut source = ready(10, 3);
    let record = source.poll_next(Ok(vec![full("0xAA", 100, 7)])).unwrap().unwrap();
    assert_eq!(record.data.transaction_id, "0xAA");
    assert_eq!(record.data.transaction_kind, "ProgrammableTransaction");
    assert_eq!(record.data.timestamp, 100);
    assert_eq!(
        record.data.sender,
        "0x0000000000000000000000000000000000000000000000000000000000000002"
    );
    assert_eq!(record.data.metadata, "V1(..)");
    assert!(record.timestamp > 0);
}

#[test]
fn empty_digest_is_an_identifier_like_any_other() {
    let mut source = ready(10, 3);
    let record = source.poll_next(Ok(vec![bare("", None, None)])).unwrap().unwrap();
    assert_eq!(record.data.transaction_id, "");
    assert_eq!(source.last_processed_id().map(String::as_str), Some(""));
    assert!(source.poll_next(Ok(vec![bare("", None, None)])).unwrap().is_none());
}

#[test]
fn no_two_events_in_a_row_share_an_identifier() {
    let mut source = ready(10, 3);
    let heads = ["0xAA", "0xAA", "0xBB", "0xBB", "0xBB", "0xAA", "0xCC", "0xCC", "0xAA"];
    let mut emitted: Vec<String> = Vec::new();
    for (turn, digest) in heads.iter().enumerate() {
        if turn == 4 {
            assert!(source.close().is_ok());
            assert!(source.initialize(Ok("again")).is_ok());
        }
        if let Some(record) = source.poll_next(Ok(vec![bare(digest, Some(1), None)])).unwrap() {
            emitted.push(record.data.transaction_id);
        }
        assert_eq!(source.last_processed_id(), emitted.last());
    }
    assert_eq!(emitted, vec!["0xAA", "0xBB", "0xAA", "0xCC", "0xAA"]);
    for pair in emitted.windows(2) {
        assert_ne!(pair[0], pair[1]);
    }
}
