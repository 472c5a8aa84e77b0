use investment_management::clock::Timestamp;
use investment_management::nlp::conversation_storage::{
    append_message, generate_summary, new_conversation, new_message, ConversationMemoryStore, ConversationStorage,
    ConversationStorageConfig, MessageRole, StorageError, StorageType,
};
use investment_management::nlp::rule_based::FinancialQueryIntent;

#[test]
fn storage_config_defaults() {
    let config = ConversationStorageConfig::default();
    assert_eq!(config.storage_type, StorageType::Memory);
    assert_eq!(config.max_memory_conversations, 1000);
    assert!(config.enable_summarization);
    assert!(config.base_directory.is_none());
}

#[test]
fn memory_store_read_after_write() {
    let mut store = ConversationMemoryStore::new(10);
    let mut conversation = new_conversation("user123");
    let message = new_message(MessageRole::User, "Tell me about retirement planning", None, None, None);
    append_message(&mut conversation, message, true);
    assert_eq!(conversation.summary.as_deref(), Some("Conversation with 1 messages"));
    let id = conversation.id.clone();
    store.save_conversation(conversation);

    let stored = store.get(&id).unwrap();
    assert_eq!(stored.messages.len(), 1);
    assert_eq!(stored.messages[0].role, "user");
    assert_eq!(stored.messages[0].content, "Tell me about retirement planning");

    assert_eq!(store.list_conversations("user123", None).len(), 1);
    assert_eq!(store.list_conversations("someone else", None).len(), 0);
    assert_eq!(store.search_conversations("RETIREMENT").len(), 1);
    assert_eq!(store.search_conversations("mortgage").len(), 0);

    store.remove(&id);
    assert!(store.get(&id).is_none());
}

#[test]
fn saving_again_replaces() {
    let mut store = ConversationMemoryStore::new(10);
    let mut c = new_conversation("u");
    let id = c.id.clone();
    store.save_conversation(c.clone());
    append_message(&mut c, new_message(MessageRole::Assistant, "Hi", None, None, None), false);
    store.save_conversation(c);
    assert_eq!(store.list_conversations("u", None).len(), 1);
    assert_eq!(store.get(&id).unwrap().messages.len(), 1);
}

#[test]
fn the_least_recently_updated_go_first() {
    let mut store = ConversationMemoryStore::new(2);
    let mut ids = Vec::new();
    for i in 0..3 {
        let mut c = new_conversation("u");
        c.updated_at = Timestamp { micros: 1000 * (i + 1) };
        ids.push(c.id.clone());
        store.save_conversation(c);
    }
    assert!(store.get(&ids[0]).is_none());
    assert!(store.get(&ids[1]).is_some());
    assert!(store.get(&ids[2]).is_some());
    let listed = store.list_conversations("u", None);
    assert_eq!(listed.len(), 2);
    assert_eq!(listed[0].id, ids[2]);
    assert_eq!(store.list_conversations("u", Some(1)).len(), 1);
}

#[test]
fn messages_carry_intent_names_and_roles() {
    let m = new_message(MessageRole::Assistant, "x", Some(FinancialQueryIntent::TaxOptimization), Some(700), None);
    assert_eq!(m.role, "assistant");
    assert_eq!(m.intent.as_deref(), Some("TaxOptimization"));
    assert_eq!(m.intent_confidence, Some(700));
    assert_eq!(MessageRole::System.label(), "system");
    let c = new_conversation("u");
    assert_eq!(generate_summary(&c), "Conversation with 0 messages");
}

#[test]
fn test_memory_storage() {
    let config = ConversationStorageConfig {
        storage_type: StorageType::Memory,
        base_directory: None,
        database_url: None,
        dynamodb_tables: None,
        max_memory_conversations: 10,
        enable_summarization: false,
        memory_ttl_seconds: 1,
    };
    let mut storage = ConversationStorage::new(config);

    let mut conversation = new_conversation("user123");
    let message = new_message(MessageRole::User, "Tell me about retirement planning", None, None, None);
    append_message(&mut conversation, message, false);
    let id = conversation.id.clone();
    let now = conversation.updated_at;

    storage.save_conversation(conversation);

    let loaded = storage.get_conversation(&id, now);
    assert!(loaded.is_ok());
    assert_eq!(loaded.unwrap().id, id);

    let conversations = storage.list_conversations("user123", None);
    assert_eq!(conversations.len(), 1);
    assert_eq!(conversations[0].id, id);

    let search_results = storage.search_conversations("retirement");
    assert_eq!(search_results.len(), 1);
    assert_eq!(search_results[0].id, id);

    storage.delete_conversation(&id);

    assert_eq!(storage.get_conversation(&id, now).unwrap_err(), StorageError::ConversationNotFound);
}

#[test]
fn added_messages_are_stored_with_their_conversation() {
    let mut storage = ConversationStorage::new(ConversationStorageConfig::default());
    let conversation = storage.create_conversation("user123");
    assert!(conversation.messages.is_empty());
    assert_eq!(storage.get_conversation(&conversation.id, conversation.updated_at).unwrap().user_id, "user123");

    let message = storage
        .add_message(&conversation.id, MessageRole::User, "How are my investments doing?",
            Some(FinancialQueryIntent::PortfolioPerformance), Some(900), None, conversation.updated_at)
        .unwrap();
    assert_eq!(message.role, "user");
    assert_eq!(message.intent.as_deref(), Some("PortfolioPerformance"));
    assert_eq!(message.intent_confidence, Some(900));
    assert!(message.metadata.as_ref().unwrap().is_empty());

    let stored = storage.get_conversation(&conversation.id, conversation.updated_at).unwrap();
    assert_eq!(stored.messages.len(), 1);
    assert_eq!(stored.messages[0].id, message.id);
    assert_eq!(stored.messages[0].content, "How are my investments doing?");
    assert_eq!(stored.summary.as_deref(), Some("Conversation with 1 messages"));
    assert_eq!(stored.created_at, conversation.created_at);

    assert_eq!(
        storage.add_message("missing", MessageRole::User, "hi", None, None, None, conversation.updated_at).unwrap_err(),
        StorageError::ConversationNotFound
    );
}

#[test]
fn test_memory_cache_expiration() {
    let config = ConversationStorageConfig {
        storage_type: StorageType::Memory,
        max_memory_conversations: 10,
        ..Default::default()
    };
    let mut storage = ConversationStorage::new(config);
    let conversation = storage.create_conversation("user123");

    let two_seconds_later = Timestamp { micros: conversation.updated_at.micros + 2_000_000 };
    let result = storage.get_conversation(&conversation.id, two_seconds_later);
    assert!(result.is_err());

    let half_a_second_later = Timestamp { micros: conversation.updated_at.micros + 500_000 };
    assert!(storage.get_conversation(&conversation.id, half_a_second_later).is_ok());
}

#[test]
fn expired_conversations_take_no_messages() {
    let mut storage = ConversationStorage::new(ConversationStorageConfig::default());
    let conversation = storage.create_conversation("user123");
    let later = Timestamp { micros: conversation.updated_at.micros + 1_000_000 };
    assert_eq!(
        storage.add_message(&conversation.id, MessageRole::User, "hi", None, None, None, later).unwrap_err(),
        StorageError::ConversationNotFound
    );
    assert!(storage.get_conversation(&conversation.id, conversation.updated_at).unwrap().messages.is_empty());
}
