use investment_management::nlp::conversation_summary::ConversationSummary;
use investment_management::nlp::conversation_summary_storage::InMemorySummaryStorage;

fn summary(id: &str, conversation: &str, version: u32, content: &str) -> ConversationSummary {
    let mut s = ConversationSummary::new(conversation.to_string(), content.to_string(), "m".to_string());
    s.id = id.to_string();
    s.version = version;
    s
}

#[test]
fn saved_summaries_are_read_back() {
    let mut storage = InMemorySummaryStorage::new();
    storage.save_summary(summary("s1", "c1", 1, "first"));
    assert_eq!(storage.get_summary("s1").unwrap().content, "first");
    assert!(storage.get_summary("s2").is_none());
    storage.save_summary(summary("s1", "c1", 2, "second"));
    assert_eq!(storage.get_summary("s1").unwrap().content, "second");
    assert_eq!(storage.list_summaries("c1").len(), 1);
}

#[test]
fn listing_puts_the_highest_version_first() {
    let mut storage = InMemorySummaryStorage::new();
    storage.save_summary(summary("a", "c", 1, "v1"));
    storage.save_summary(summary("b", "c", 3, "v3"));
    storage.save_summary(summary("d", "c", 2, "v2"));
    storage.save_summary(summary("e", "other", 9, "x"));
    let listed = storage.list_summaries("c");
    assert_eq!(listed.len(), 3);
    assert_eq!(listed[0].id, "b");
    assert_eq!(listed[1].id, "d");
    assert_eq!(listed[2].id, "a");
    assert!(storage.list_summaries("none").is_empty());
}

#[test]
fn deleting_forgets_the_summary() {
    let mut storage = InMemorySummaryStorage::new();
    storage.save_summary(summary("a", "c", 1, "v1"));
    storage.save_summary(summary("b", "c", 2, "v2"));
    storage.delete_summary("a");
    assert!(storage.get_summary("a").is_none());
    let listed = storage.list_summaries("c");
    assert_eq!(listed.len(), 1);
    assert_eq!(listed[0].id, "b");
    storage.delete_summary("missing");
    assert_eq!(storage.list_summaries("c").len(), 1);
}
