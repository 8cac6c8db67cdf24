use device_gateway::models::{DeviceSignal, Timestamp};
use device_gateway::adapters::{
    next_point_write, BatchStep,
    assemble_signal, probe_answered, relational_row, row_limit, signal_of_row,
    stream_batch_outcome, topic_reachable, RelationalRow, RowError, DEVICE_HISTORY_LIMIT,
    LATEST_LIMIT,
};

const ID: u128 = 0xa1a2a3a4b1b2c1c2d1d2d3d4d5d6d7d8;
const ID_TEXT: &str = "a1a2a3a4-b1b2-c1c2-d1d2-d3d4d5d6d7d8";

fn stored(id: Option<u128>, metadata: Option<&str>) -> DeviceSignal {
    DeviceSignal {
        id,
        device_id: "d1".to_string(),
        signal_type: "temp".to_string(),
        value_bits: 21.5f64.to_bits(),
        unit: Some("C".to_string()),
        timestamp: Timestamp { seconds: 10, nanos: 20 },
        metadata: metadata.map(|m| m.to_string()),
    }
}

fn row(id: &str, metadata: Option<&str>) -> RelationalRow {
    RelationalRow {
        id: id.to_string(),
        device_id: "d1".to_string(),
        signal_type: "temp".to_string(),
        value_bits: 21.5f64.to_bits(),
        unit: Some("C".to_string()),
        timestamp: Timestamp { seconds: 10, nanos: 20 },
        metadata: metadata.map(|m| m.to_string()),
    }
}

#[test]
fn row_has_the_identifier_in_text() {
    assert_eq!(relational_row(&stored(Some(ID), Some("{\"a\":1}"))), Ok(row(ID_TEXT, Some("{\"a\":1}"))));
}

#[test]
fn row_identifier_keeps_leading_zeros() {
    let small = relational_row(&stored(Some(0x1f), None)).unwrap();
    assert_eq!(small.id, "00000000-0000-0000-0000-00000000001f");
    let largest = relational_row(&stored(Some(u128::MAX), None)).unwrap();
    assert_eq!(largest.id, "ffffffff-ffff-ffff-ffff-ffffffffffff");
}

#[test]
fn row_needs_an_identifier() {
    assert_eq!(relational_row(&stored(None, None)), Err(RowError::MissingId));
}

#[test]
fn signal_of_row_reads_the_identifier() {
    assert_eq!(signal_of_row(row(ID_TEXT, Some("{\"a\":1}"))), Ok(stored(Some(ID), Some("{\"a\":1}"))));
}

#[test]
fn signal_of_row_rejects_a_bad_identifier() {
    for bad in ["not-an-id", "", "a1a2a3a4-b1b2-c1c2-d1d2-d3d4d5d6d7"] {
        let reason = uuid::Uuid::parse_str(bad).unwrap_err().to_string();
        assert!(!reason.is_empty());
        assert_eq!(signal_of_row(row(bad, None)), Err(RowError::InvalidId(reason)));
    }
}

#[test]
fn signal_of_row_drops_metadata_that_is_no_document() {
    assert_eq!(signal_of_row(row(ID_TEXT, Some("{broken"))), Ok(stored(Some(ID), None)));
    assert_eq!(signal_of_row(row(ID_TEXT, None)), Ok(stored(Some(ID), None)));
    assert_eq!(signal_of_row(row(ID_TEXT, Some("[1, 2]"))), Ok(stored(Some(ID), Some("[1, 2]"))));
}

#[test]
fn row_and_signal_round_trip() {
    let signal = stored(Some(12345), Some("{\"k\":\"v\"}"));
    let back = signal_of_row(relational_row(&signal).unwrap());
    assert_eq!(back, Ok(signal));
}

#[test]
fn assemble_signal_follows_its_arguments() {
    assert_eq!(assemble_signal(row("x", Some("m")), Ok(3), true), Ok(stored(Some(3), Some("m"))));
    assert_eq!(assemble_signal(row("x", Some("m")), Ok(3), false), Ok(stored(Some(3), None)));
    assert_eq!(
        assemble_signal(row(ID_TEXT, None), Err("unreadable".to_string()), true),
        Err(RowError::InvalidId("unreadable".to_string()))
    );
}

#[test]
fn row_limits() {
    assert_eq!(DEVICE_HISTORY_LIMIT, 100);
    assert_eq!(LATEST_LIMIT, 50);
    assert_eq!(row_limit(None, DEVICE_HISTORY_LIMIT), 100);
    assert_eq!(row_limit(None, LATEST_LIMIT), 50);
    assert_eq!(row_limit(Some(7), LATEST_LIMIT), 7);
    assert_eq!(row_limit(Some(-1), DEVICE_HISTORY_LIMIT), -1);
}

#[test]
fn stream_batch_succeeds_when_all_messages_do() {
    assert_eq!(stream_batch_outcome(&Vec::new()), Ok(()));
    assert_eq!(stream_batch_outcome(&vec![Ok(()), Ok(())]), Ok(()));
}

#[test]
fn stream_batch_tells_how_many_failed() {
    let outcomes = vec![Ok(()), Err("a".to_string()), Err("b".to_string())];
    assert_eq!(stream_batch_outcome(&outcomes), Err("Failed to send 2 out of 3 messages".to_string()));
}

#[test]
fn topic_reachability() {
    assert!(topic_reachable(&Ok(Some(1))));
    assert!(topic_reachable(&Ok(Some(12))));
    assert!(!topic_reachable(&Ok(Some(0))));
    assert!(!topic_reachable(&Ok(None)));
    assert!(!topic_reachable(&Err("timed out".to_string())));
}

#[test]
fn relational_probe_expects_one() {
    assert!(probe_answered(1));
    assert!(!probe_answered(0));
    assert!(!probe_answered(2));
}

#[test]
fn empty_point_batch_writes_nothing() {
    assert_eq!(next_point_write(0, &Vec::new()), BatchStep::Done(Ok(())));
}

#[test]
fn point_batch_writes_in_order_until_done() {
    let mut outcomes: Vec<Result<(), String>> = Vec::new();
    for index in 0..3 {
        assert_eq!(next_point_write(3, &outcomes), BatchStep::Write { index });
        outcomes.push(Ok(()));
    }
    assert_eq!(next_point_write(3, &outcomes), BatchStep::Done(Ok(())));
    assert_eq!(next_point_write(2, &outcomes), BatchStep::Done(Ok(())));
}

#[test]
fn point_batch_stops_at_the_first_failure() {
    let outcomes = vec![Ok(()), Err("timeout".to_string())];
    assert_eq!(next_point_write(5, &outcomes), BatchStep::Done(Err("timeout".to_string())));
    let two = vec![Err("first".to_string()), Ok(()), Err("second".to_string())];
    assert_eq!(next_point_write(3, &two), BatchStep::Done(Err("first".to_string())));
    assert_eq!(next_point_write(0, &two), BatchStep::Done(Err("first".to_string())));
}
