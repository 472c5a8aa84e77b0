use investment_management::clock::Timestamp;
use investment_management::nlp::conversation_storage::{Conversation, ConversationMessage};
use investment_management::nlp::conversation_storage_dynamodb::{
    conversation_from_item, conversation_ids, conversation_item, message_from_item, message_item,
    messages_from_items, parse_i64, AttributeValue, TableError,
};
use investment_management::string_map::StringMap;

fn text(key: &str, value: &str) -> (String, AttributeValue) {
    (key.to_string(), AttributeValue::S(value.to_string()))
}

fn number(key: &str, value: &str) -> (String, AttributeValue) {
    (key.to_string(), AttributeValue::N(value.to_string()))
}

fn sample_message(confidence: Option<u32>) -> ConversationMessage {
    let mut metadata = StringMap::new();
    metadata.insert("source", "web");
    metadata.insert("locale", "en");
    ConversationMessage {
        id: "test_message".to_string(),
        timestamp: Timestamp { micros: 1_700_000_000_000_000 },
        role: "user".to_string(),
        content: "Hello, world!".to_string(),
        intent: Some("Greeting".to_string()),
        intent_confidence: confidence,
        metadata: Some(metadata),
    }
}

fn sample_conversation() -> Conversation {
    Conversation {
        id: "test_conversation".to_string(),
        user_id: "test_user".to_string(),
        messages: vec![sample_message(Some(950))],
        created_at: Timestamp { micros: 1_600_000_000_000_000 },
        updated_at: Timestamp { micros: 1_700_000_000_000_000 },
        tags: vec!["test".to_string()],
        summary: Some("Test conversation".to_string()),
        metadata: StringMap::new(),
    }
}

#[test]
fn integers_read_as_i64_parsing_does() {
    assert_eq!(parse_i64("42"), Some(42));
    assert_eq!(parse_i64("-7"), Some(-7));
    assert_eq!(parse_i64("+5"), Some(5));
    assert_eq!(parse_i64("007"), Some(7));
    assert_eq!(parse_i64("9223372036854775807"), Some(i64::MAX));
    assert_eq!(parse_i64("-9223372036854775808"), Some(i64::MIN));
    assert_eq!(parse_i64("9223372036854775808"), None);
    assert_eq!(parse_i64("-9223372036854775809"), None);
    assert_eq!(parse_i64(""), None);
    assert_eq!(parse_i64("-"), None);
    assert_eq!(parse_i64("1.5"), None);
    assert_eq!(parse_i64("12a"), None);
    assert_eq!(parse_i64(" 1"), None);
}

#[test]
fn message_item_holds_each_field_once() {
    let item = message_item(&sample_message(Some(950)), "test_conversation");
    let keys: Vec<&str> = item.iter().map(|(k, _)| k.as_str()).collect();
    assert_eq!(
        keys,
        vec!["id", "conversation_id", "timestamp", "role", "content", "intent", "intent_confidence", "metadata"]
    );
    match &item[2].1 {
        AttributeValue::N(n) => assert_eq!(n, "1700000000"),
        other => panic!("unexpected {:?}", other),
    }
    match &item[6].1 {
        AttributeValue::N(n) => assert_eq!(n, "0.95"),
        other => panic!("unexpected {:?}", other),
    }
}

#[test]
fn confidences_are_written_as_shortest_decimals() {
    for (thousandths, expected) in [(1000u32, "1"), (0, "0"), (5, "0.005"), (50, "0.05"), (125, "0.125")] {
        let item = message_item(&sample_message(Some(thousandths)), "c");
        match &item[6].1 {
            AttributeValue::N(n) => assert_eq!(n, expected),
            other => panic!("unexpected {:?}", other),
        }
        let read = message_from_item(&item).unwrap();
        assert_eq!(read.intent_confidence, Some(thousandths));
    }
}

#[test]
fn message_reads_back_from_its_item() {
    let message = sample_message(Some(950));
    let read = message_from_item(&message_item(&message, "test_conversation")).unwrap();
    assert_eq!(read.id, "test_message");
    assert_eq!(read.timestamp, message.timestamp);
    assert_eq!(read.role, "user");
    assert_eq!(read.content, "Hello, world!");
    assert_eq!(read.intent.as_deref(), Some("Greeting"));
    assert_eq!(read.intent_confidence, Some(950));
    let metadata = read.metadata.unwrap();
    assert_eq!(metadata.get("source").map(|s| s.as_str()), Some("web"));
    assert_eq!(metadata.get("locale").map(|s| s.as_str()), Some("en"));
}

#[test]
fn empty_metadata_is_not_stored() {
    let mut message = sample_message(None);
    message.metadata = Some(StringMap::new());
    message.intent = None;
    let item = message_item(&message, "c");
    assert_eq!(item.len(), 5);
    let read = message_from_item(&item).unwrap();
    assert!(read.metadata.is_none());
    assert!(read.intent.is_none());
    assert!(read.intent_confidence.is_none());
}

#[test]
fn message_errors_come_in_order() {
    let full = vec![
        text("id", "m1"),
        number("timestamp", "1700000000"),
        text("role", "user"),
        text("content", "hi"),
    ];
    assert!(message_from_item(&full).is_ok());

    let no_id = vec![number("timestamp", "1"), text("role", "user"), text("content", "hi")];
    assert_eq!(message_from_item(&no_id).unwrap_err(), TableError::InvalidMessageId);

    let text_time = vec![text("id", "m1"), text("timestamp", "1")];
    assert_eq!(message_from_item(&text_time).unwrap_err(), TableError::InvalidMessageTimestamp);

    let bad_time = vec![text("id", "m1"), number("timestamp", "1.5"), text("role", "user")];
    assert_eq!(message_from_item(&bad_time).unwrap_err(), TableError::InvalidTimestampFormat);

    let far_time = vec![text("id", "m1"), number("timestamp", "9000000000000000000")];
    assert_eq!(message_from_item(&far_time).unwrap_err(), TableError::InvalidTimestampValue);

    let no_role = vec![text("id", "m1"), number("timestamp", "1"), text("content", "hi")];
    assert_eq!(message_from_item(&no_role).unwrap_err(), TableError::InvalidMessageRole);

    let no_content = vec![text("id", "m1"), number("timestamp", "1"), text("role", "user")];
    assert_eq!(message_from_item(&no_content).unwrap_err(), TableError::InvalidMessageContent);
}

#[test]
fn negative_message_times_read_back() {
    let item = vec![
        text("id", "m1"),
        number("timestamp", "-86400"),
        text("role", "user"),
        text("content", "hi"),
    ];
    let read = message_from_item(&item).unwrap();
    assert_eq!(read.timestamp.micros, -86_400_000_000);
}

#[test]
fn the_first_unreadable_message_fails_the_listing() {
    let good = || vec![text("id", "m1"), number("timestamp", "1"), text("role", "user"), text("content", "a")];
    let bad = vec![text("id", "m2"), number("timestamp", "1")];
    let read = messages_from_items(&vec![good(), good()]).unwrap();
    assert_eq!(read.len(), 2);
    assert_eq!(
        messages_from_items(&vec![good(), bad, good()]).unwrap_err(),
        TableError::InvalidMessageRole
    );
}

#[test]
fn conversation_item_leaves_out_what_is_empty() {
    let mut conversation = sample_conversation();
    let item = conversation_item(&conversation);
    let keys: Vec<&str> = item.iter().map(|(k, _)| k.as_str()).collect();
    assert_eq!(keys, vec!["id", "user_id", "created_at", "updated_at", "tags", "summary"]);

    conversation.tags.clear();
    conversation.summary = None;
    let item = conversation_item(&conversation);
    let keys: Vec<&str> = item.iter().map(|(k, _)| k.as_str()).collect();
    assert_eq!(keys, vec!["id", "user_id", "created_at", "updated_at"]);
}

#[test]
fn conversation_reads_back_from_its_item() {
    let conversation = sample_conversation();
    let item = conversation_item(&conversation);
    let messages = vec![message_from_item(&message_item(&conversation.messages[0], &conversation.id)).unwrap()];
    let read = conversation_from_item("test_conversation", &item, messages).unwrap();
    assert_eq!(read.id, conversation.id);
    assert_eq!(read.user_id, conversation.user_id);
    assert_eq!(read.messages.len(), conversation.messages.len());
    assert_eq!(read.messages[0].content, conversation.messages[0].content);
    assert_eq!(read.created_at, conversation.created_at);
    assert_eq!(read.updated_at, conversation.updated_at);
    assert_eq!(read.tags, vec!["test".to_string()]);
    assert_eq!(read.summary.as_deref(), Some("Test conversation"));
    assert!(read.metadata.is_empty());
}

#[test]
fn conversation_without_user_fails() {
    let item = vec![text("id", "c1"), number("created_at", "1")];
    assert_eq!(
        conversation_from_item("c1", &item, Vec::new()).unwrap_err(),
        TableError::InvalidUserId
    );
}

#[test]
fn listing_needs_conversation_ids() {
    let items = vec![vec![text("conversation_id", "a")], vec![text("conversation_id", "b")]];
    assert_eq!(conversation_ids(&items).unwrap(), vec!["a".to_string(), "b".to_string()]);
    let items = vec![vec![text("conversation_id", "a")], vec![number("conversation_id", "1")]];
    assert_eq!(conversation_ids(&items).unwrap_err(), TableError::MissingConversationId);
}

#[test]
fn test_dynamodb_storage() {
    let mut conversation = sample_conversation();
    conversation.messages = vec![ConversationMessage {
        id: "test_message".to_string(),
        timestamp: Timestamp { micros: 1_700_000_000_000_000 },
        role: "user".to_string(),
        content: "Hello, world!".to_string(),
        intent: Some("Greeting".to_string()),
        intent_confidence: Some(950),
        metadata: Some(StringMap::new()),
    }];

    let conversation_row = conversation_item(&conversation);
    let message_rows: Vec<_> = conversation.messages.iter().map(|m| message_item(m, &conversation.id)).collect();

    let messages = messages_from_items(&message_rows).unwrap();
    let loaded = conversation_from_item("test_conversation", &conversation_row, messages).unwrap();
    assert_eq!(loaded.id, conversation.id);
    assert_eq!(loaded.user_id, conversation.user_id);
    assert_eq!(loaded.messages.len(), conversation.messages.len());
    assert_eq!(loaded.messages[0].content, conversation.messages[0].content);
}
