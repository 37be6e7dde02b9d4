use quickwit::kinesis::shard_consumer::{
    ActorExitStatus, ChildShard, GetRecordsOutput, Record, ShardConsumer, ShardConsumerAction,
    ShardConsumerMessage,
};

type Action = ShardConsumerAction<String>;

/// How a turn of the consumer ended.
#[derive(Debug, PartialEq)]
enum Ending {
    GetRecords(String),
    Loop(u64),
    Exit(ActorExitStatus<String>),
}

/// Sends all messages of the turn.
fn run(mut action: Action) -> (Vec<ShardConsumerMessage>, Ending) {
    let mut messages = Vec::new();
    loop {
        match action {
            ShardConsumerAction::Send { message, rest } => {
                messages.push(message);
                action = rest.message_sent(Ok(()));
            }
            ShardConsumerAction::GetRecords { shard_iterator } => {
                return (messages, Ending::GetRecords(shard_iterator))
            }
            ShardConsumerAction::ScheduleLoop { delay_millis } => {
                return (messages, Ending::Loop(delay_millis))
            }
            ShardConsumerAction::Exit(status) => return (messages, Ending::Exit(status)),
        }
    }
}

fn consumer(shard_id: &str, eof_enabled: bool) -> ShardConsumer {
    ShardConsumer::new("stream".to_string(), shard_id.to_string(), None, eof_enabled)
}

fn record(sequence_number: &str, data: &str) -> Record {
    Record {
        approximate_arrival_timestamp: Some(1459799926.480f64.to_bits()),
        data: data.as_bytes().to_vec(),
        encryption_type: None,
        partition_key: "key".to_string(),
        sequence_number: sequence_number.to_string(),
    }
}

fn answer(records: Vec<Record>) -> GetRecordsOutput {
    GetRecordsOutput {
        child_shards: None,
        millis_behind_latest: None,
        next_shard_iterator: Some("next".to_string()),
        records,
    }
}

fn expected_state(
    stream_name: &str,
    shard_id: &str,
    sequence_number: serde_json::Value,
    num_bytes: u64,
    num_records: u64,
) -> serde_json::Value {
    let mut members = serde_json::Map::new();
    members.insert("stream_name".to_string(), serde_json::Value::from(stream_name));
    members.insert("shard_id".to_string(), serde_json::Value::from(shard_id));
    members.insert("current_sequence_number".to_string(), sequence_number);
    members.insert("num_bytes_transferred".to_string(), serde_json::Value::from(num_bytes));
    members.insert("num_records_transferred".to_string(), serde_json::Value::from(num_records));
    serde_json::Value::Object(members)
}

#[test]
fn test_shard_eof() {
    let stream_name = "test-shard-eof";
    let shard_id_0 = "shardId-000000000000";
    let mut shard_consumer =
        ShardConsumer::new(stream_name.to_string(), shard_id_0.to_string(), None, true);
    let request = shard_consumer.initialize();
    assert_eq!(request.stream_name, stream_name);
    assert_eq!(request.shard_id, shard_id_0);
    assert_eq!(request.from_sequence_number_exclusive, None);
    let action: Action = shard_consumer.shard_iterator_received(Ok(Some("horizon".to_string())));
    let (messages, ending) = run(action);
    assert!(messages.is_empty());
    assert_eq!(ending, Ending::GetRecords("horizon".to_string()));

    let mut output = answer(vec![]);
    output.millis_behind_latest = Some(0);
    let (messages, ending) = run(shard_consumer.records_received(Ok(output)));
    assert_eq!(ending, Ending::Exit(ActorExitStatus::Success));
    assert_eq!(messages.len(), 1);
    assert!(matches!(
        &messages[0],
        ShardConsumerMessage::ShardEOF(shard_id) if *shard_id == shard_id_0
    ));
    assert_eq!(
        shard_consumer.observable_state(),
        expected_state(stream_name, shard_id_0, serde_json::Value::Null, 0, 0)
    );
}

#[test]
fn consumer_is_named() {
    assert_eq!(consumer("shard", true).name(), "KinesisShardConsumer");
}

#[test]
fn consumption_is_resumed_after_a_sequence_number() {
    let consumer = ShardConsumer::new(
        "stream".to_string(),
        "shard".to_string(),
        Some("42".to_string()),
        false,
    );
    assert_eq!(
        consumer.initialize().from_sequence_number_exclusive,
        Some("42".to_string())
    );
}

#[test]
fn records_are_counted_and_passed_on() {
    let mut consumer = consumer("shard", false);
    let mut output = answer(vec![record("1", "Record #00"), record("2", "Record #1")]);
    output.millis_behind_latest = Some(7);
    let (messages, ending) = run(consumer.records_received(Ok(output)));
    assert_eq!(ending, Ending::Loop(210));
    assert_eq!(messages.len(), 1);
    assert!(matches!(
        &messages[0],
        ShardConsumerMessage::Records { shard_id, records, lag_millis: Some(7) }
            if shard_id == "shard" && records.len() == 2 && records[1] == record("2", "Record #1")
    ));
    assert_eq!(
        consumer.observable_state(),
        expected_state("stream", "shard", serde_json::Value::from("2"), 19, 2)
    );

    // An answer without records changes neither the counters nor the sequence number.
    let (messages, ending) = run(consumer.records_received(Ok(answer(vec![]))));
    assert!(messages.is_empty());
    assert_eq!(ending, Ending::Loop(210));
    let (_, ending) = run(consumer.process_message());
    assert_eq!(ending, Ending::GetRecords("next".to_string()));
    run(consumer.records_received(Ok(answer(vec![record("3", "")]))));
    assert_eq!(
        consumer.observable_state(),
        expected_state("stream", "shard", serde_json::Value::from("3"), 19, 3)
    );
}

#[test]
fn messages_come_in_order() {
    let mut consumer = consumer("shard", true);
    let mut output = answer(vec![record("1", "a")]);
    output.millis_behind_latest = Some(0);
    output.child_shards = Some(vec![ChildShard {
        parent_shards: vec!["shard".to_string()],
        shard_id: "child".to_string(),
    }]);
    let (messages, ending) = run(consumer.records_received(Ok(output)));
    assert_eq!(ending, Ending::Exit(ActorExitStatus::Success));
    assert_eq!(messages.len(), 3);
    assert!(matches!(&messages[0], ShardConsumerMessage::Records { .. }));
    assert!(matches!(&messages[1], ShardConsumerMessage::ChildShards(ids) if *ids == vec!["child"]));
    assert!(matches!(&messages[2], ShardConsumerMessage::ShardEOF(_)));
}

#[test]
fn the_tip_of_the_shard_is_no_end_unless_enabled() {
    let mut consumer = consumer("shard", false);
    let mut output = answer(vec![]);
    output.millis_behind_latest = Some(0);
    let (messages, ending) = run(consumer.records_received(Ok(output)));
    assert!(messages.is_empty());
    assert_eq!(ending, Ending::Loop(210));
}

#[test]
fn an_unknown_lag_is_not_the_tip() {
    for lag in [None, Some(-1), Some(1)] {
        let mut consumer = consumer("shard", true);
        let mut output = answer(vec![]);
        output.millis_behind_latest = lag;
        let (messages, ending) = run(consumer.records_received(Ok(output)));
        assert!(messages.is_empty());
        assert_eq!(ending, Ending::Loop(210));
    }
}

#[test]
fn merged_child_is_announced_by_its_first_parent_alone() {
    let children = || {
        Some(vec![ChildShard {
            parent_shards: vec!["first".to_string(), "second".to_string()],
            shard_id: "child".to_string(),
        }])
    };
    let mut output = answer(vec![]);
    output.child_shards = children();
    let (messages, _) = run(consumer("first", false).records_received(Ok(output)));
    assert_eq!(messages.len(), 1);
    assert!(matches!(&messages[0], ShardConsumerMessage::ChildShards(ids) if *ids == vec!["child"]));

    let mut output = answer(vec![]);
    output.child_shards = children();
    let (messages, ending) = run(consumer("second", false).records_received(Ok(output)));
    assert!(messages.is_empty());
    assert_eq!(ending, Ending::Loop(210));
}

#[test]
fn both_children_of_a_split_are_announced() {
    let child = |shard_id: &str, parents: Vec<&str>| ChildShard {
        parent_shards: parents.into_iter().map(|parent| parent.to_string()).collect(),
        shard_id: shard_id.to_string(),
    };
    let mut output = answer(vec![]);
    output.child_shards = Some(vec![
        child("1", vec!["0"]),
        child("stranger", vec!["7", "0"]),
        child("orphan", vec![]),
        child("2", vec!["0"]),
    ]);
    let (messages, _) = run(consumer("0", false).records_received(Ok(output)));
    assert_eq!(messages.len(), 1);
    assert!(matches!(&messages[0], ShardConsumerMessage::ChildShards(ids) if *ids == vec!["1", "2"]));
}

#[test]
fn closed_shard_ends_the_consumer() {
    let mut consumer = consumer("shard", false);
    let mut output = answer(vec![record("1", "a")]);
    output.next_shard_iterator = None;
    let (_, ending) = run(consumer.records_received(Ok(output)));
    assert_eq!(ending, Ending::Loop(210));
    let (messages, ending) = run(consumer.process_message());
    assert_eq!(messages.len(), 1);
    assert!(matches!(&messages[0], ShardConsumerMessage::ShardClosed(id) if id == "shard"));
    assert_eq!(ending, Ending::Exit(ActorExitStatus::Success));
}

#[test]
fn shard_without_a_start_is_closed() {
    let mut consumer = consumer("shard", false);
    let (messages, ending) = run(consumer.shard_iterator_received(Ok(None)));
    assert_eq!(messages.len(), 1);
    assert!(matches!(&messages[0], ShardConsumerMessage::ShardClosed(id) if id == "shard"));
    assert_eq!(ending, Ending::Exit(ActorExitStatus::Success));
}

#[test]
fn failures_end_the_consumer() {
    let failure = || Ending::Exit(ActorExitStatus::Failure("down".to_string()));

    let mut failing = consumer("shard", false);
    let (messages, ending) = run(failing.shard_iterator_received(Err("down".to_string())));
    assert!(messages.is_empty());
    assert_eq!(ending, failure());

    let mut failing = consumer("shard", false);
    let (messages, ending) = run(failing.records_received(Err("down".to_string())));
    assert!(messages.is_empty());
    assert_eq!(ending, failure());

    // A message that cannot be sent is the last; the records are counted all the same.
    let mut failing = consumer("shard", true);
    let mut output = answer(vec![record("1", "a")]);
    output.millis_behind_latest = Some(0);
    let action: Action = failing.records_received(Ok(output));
    match action {
        ShardConsumerAction::Send { rest, .. } => {
            let (messages, ending) = run(rest.message_sent(Err("down".to_string())));
            assert!(messages.is_empty());
            assert_eq!(ending, failure());
        }
        _ => panic!("the records are not sent"),
    }
    assert_eq!(
        failing.observable_state(),
        expected_state("stream", "shard", serde_json::Value::from("1"), 1, 1)
    );
}

#[test]
fn counters_have_room() {
    let consumer = consumer("shard", false);
    assert!(consumer.has_room_for(&answer(vec![record("1", "a"), record("2", "b")])));
}
