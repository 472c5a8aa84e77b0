use investment_management::clock::Timestamp;
use investment_management::nlp::conversation_storage_dynamodb::AttributeValue;
use investment_management::nlp::conversation_summary::ConversationSummary;
use investment_management::nlp::summary_items::{parse_u32, summary_from_item, summary_item, SummaryItemError};

fn text(key: &str, value: &str) -> (String, AttributeValue) {
    (key.to_string(), AttributeValue::S(value.to_string()))
}

fn number(key: &str, value: &str) -> (String, AttributeValue) {
    (key.to_string(), AttributeValue::N(value.to_string()))
}

fn sample_summary() -> ConversationSummary {
    ConversationSummary {
        id: "summary-1".to_string(),
        conversation_id: "conversation-1".to_string(),
        content: "Discussed retirement savings".to_string(),
        version: 3,
        created_at: Timestamp { micros: 1_700_000_000_000_000 },
        updated_at: Timestamp { micros: 1_700_000_060_500_000 },
        last_message_id: "message-9".to_string(),
        key_entities: Vec::new(),
        key_decisions: Vec::new(),
        topics: Vec::new(),
    }
}

#[test]
fn naturals_read_as_u32_parsing_does() {
    assert_eq!(parse_u32("7"), Some(7));
    assert_eq!(parse_u32("+7"), Some(7));
    assert_eq!(parse_u32("4294967295"), Some(u32::MAX));
    assert_eq!(parse_u32("4294967296"), None);
    assert_eq!(parse_u32("-0"), None);
    assert_eq!(parse_u32("-1"), None);
    assert_eq!(parse_u32("+"), None);
    assert_eq!(parse_u32(""), None);
    assert_eq!(parse_u32("1e3"), None);
}

#[test]
fn summary_item_writes_times_as_rfc3339() {
    let item = summary_item(&sample_summary());
    let keys: Vec<&str> = item.iter().map(|(k, _)| k.as_str()).collect();
    assert_eq!(
        keys,
        vec!["id", "conversation_id", "summary_type", "content", "version", "created_at", "updated_at", "last_message_id"]
    );
    match &item[2].1 {
        AttributeValue::S(s) => assert_eq!(s, "Standard"),
        other => panic!("unexpected {:?}", other),
    }
    match &item[4].1 {
        AttributeValue::N(n) => assert_eq!(n, "3"),
        other => panic!("unexpected {:?}", other),
    }
    match &item[5].1 {
        AttributeValue::S(s) => assert_eq!(s, "2023-11-14T22:13:20+00:00"),
        other => panic!("unexpected {:?}", other),
    }
    match &item[6].1 {
        AttributeValue::S(s) => assert_eq!(s, "2023-11-14T22:14:20.500+00:00"),
        other => panic!("unexpected {:?}", other),
    }
}

#[test]
fn summary_reads_back_from_its_item() {
    let summary = sample_summary();
    let read = summary_from_item(&summary_item(&summary)).unwrap();
    assert_eq!(read.id, summary.id);
    assert_eq!(read.conversation_id, summary.conversation_id);
    assert_eq!(read.content, summary.content);
    assert_eq!(read.version, 3);
    assert_eq!(read.created_at, summary.created_at);
    assert_eq!(read.updated_at, summary.updated_at);
    assert_eq!(read.last_message_id, "message-9");
    assert!(read.key_entities.is_empty());
    assert!(read.key_decisions.is_empty());
    assert!(read.topics.is_empty());
}

#[test]
fn summary_fields_fall_back() {
    let item = vec![
        text("id", "s1"),
        text("conversation_id", "c1"),
        text("text", "older text field"),
        number("version", "not a number"),
        text("created_at", "2024-01-01T00:00:00Z"),
    ];
    let read = summary_from_item(&item).unwrap();
    assert_eq!(read.content, "older text field");
    assert_eq!(read.version, 1);
    assert_eq!(read.created_at.micros, 1_704_067_200_000_000);
    assert_eq!(read.updated_at, read.created_at);
    assert_eq!(read.last_message_id, "");
}

#[test]
fn summary_times_with_offsets_are_taken_to_utc() {
    let item = vec![
        text("id", "s1"),
        text("conversation_id", "c1"),
        text("content", "x"),
        text("created_at", "2024-01-01T02:00:00+02:00"),
        text("updated_at", "2024-01-01T00:00:01Z"),
    ];
    let read = summary_from_item(&item).unwrap();
    assert_eq!(read.created_at.micros, 1_704_067_200_000_000);
    assert_eq!(read.updated_at.micros, 1_704_067_201_000_000);
}

#[test]
fn summary_errors_come_in_order() {
    let no_id = vec![text("conversation_id", "c1")];
    assert_eq!(summary_from_item(&no_id).unwrap_err(), SummaryItemError::MissingId);

    let no_conversation = vec![text("id", "s1"), text("content", "x")];
    assert_eq!(summary_from_item(&no_conversation).unwrap_err(), SummaryItemError::MissingConversationId);

    let no_content = vec![text("id", "s1"), text("conversation_id", "c1"), text("created_at", "bad")];
    assert_eq!(summary_from_item(&no_content).unwrap_err(), SummaryItemError::MissingContent);

    let no_created = vec![text("id", "s1"), text("conversation_id", "c1"), text("content", "x")];
    assert_eq!(summary_from_item(&no_created).unwrap_err(), SummaryItemError::MissingCreatedAt);

    let bad_created = vec![
        text("id", "s1"),
        text("conversation_id", "c1"),
        text("content", "x"),
        text("created_at", "yesterday"),
    ];
    assert_eq!(summary_from_item(&bad_created).unwrap_err(), SummaryItemError::InvalidCreatedAt);

    let bad_updated = vec![
        text("id", "s1"),
        text("conversation_id", "c1"),
        text("content", "x"),
        text("created_at", "2024-01-01T00:00:00Z"),
        text("updated_at", "2024-13-01T00:00:00Z"),
    ];
    assert_eq!(summary_from_item(&bad_updated).unwrap_err(), SummaryItemError::InvalidUpdatedAt);
}
