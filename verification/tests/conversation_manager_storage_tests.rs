use investment_management::clock::Timestamp;
use investment_management::nlp::conversation_manager::{ConversationGoalType, ConversationState};
use investment_management::nlp::conversation_manager_storage::{
    convert_from_stored, convert_to_stored, intent_from_stored_name, PersistentConversationManager,
};
use investment_management::nlp::conversation_storage::{Conversation, ConversationMessage};
use investment_management::nlp::rule_based::{FinancialQueryIntent, ProcessedQuery};
use investment_management::nlp::types::{NlpConfidenceLevel, NlpResponse, NlpResponseSource};
use investment_management::string_map::StringMap;

fn message(role: &str, content: &str, intent: Option<&str>, confidence: Option<u32>) -> ConversationMessage {
    ConversationMessage {
        id: "m".to_string(),
        timestamp: Timestamp { micros: 1_700_000_000_123_456 },
        role: role.to_string(),
        content: content.to_string(),
        intent: intent.map(|s| s.to_string()),
        intent_confidence: confidence,
        metadata: None,
    }
}

fn conversation(messages: Vec<ConversationMessage>) -> Conversation {
    Conversation {
        id: "conv-1".to_string(),
        user_id: "user123".to_string(),
        messages,
        created_at: Timestamp { micros: 5 },
        updated_at: Timestamp { micros: 7 },
        tags: vec![],
        summary: None,
        metadata: StringMap::new(),
    }
}

fn response(query: &str, text: &str) -> NlpResponse {
    NlpResponse {
        query: query.to_string(),
        intent: FinancialQueryIntent::RetirementPlanning,
        confidence: 900,
        processed_query: None,
        response_text: text.to_string(),
        source: NlpResponseSource::RuleBased,
        confidence_level: NlpConfidenceLevel::High,
        is_uncertain: false,
        explanation: None,
    }
}

#[test]
fn stored_intent_names() {
    assert_eq!(intent_from_stored_name(&"RetirementPlanning".to_string()), FinancialQueryIntent::RetirementPlanning);
    assert_eq!(intent_from_stored_name(&"Help".to_string()), FinancialQueryIntent::Help);
    // names outside the stored set come back as Unknown
    assert_eq!(intent_from_stored_name(&"MarriagePlanning".to_string()), FinancialQueryIntent::Unknown);
    assert_eq!(intent_from_stored_name(&"nonsense".to_string()), FinancialQueryIntent::Unknown);
}

#[test]
fn restoring_groups_questions_and_answers() {
    let stored = conversation(vec![
        message("user", "When can I retire?", Some("RetirementPlanning"), Some(850)),
        message("assistant", "Let us look at your plan.", None, None),
        message("system", "ignored", None, None),
        message("user", "Unanswered question", None, None),
        message("user", "Last question", Some("TaxOptimization"), Some(700)),
    ]);
    let manager = convert_from_stored(stored);
    assert_eq!(manager.get_id(), "conv-1");
    assert_eq!(manager.get_client_id(), "user123");
    assert_eq!(manager.get_times(), (Timestamp { micros: 5 }, Timestamp { micros: 7 }));
    assert_eq!(manager.get_state(), &ConversationState::Greeting);
    let h = manager.get_history();
    assert_eq!(h.len(), 3);
    let first = h[0].response.as_ref().unwrap();
    assert_eq!(h[0].query, "When can I retire?");
    assert_eq!(first.intent, FinancialQueryIntent::RetirementPlanning);
    assert_eq!(first.confidence, 850);
    assert_eq!(first.response_text, "Let us look at your plan.");
    assert_eq!(first.source, NlpResponseSource::Hybrid);
    assert_eq!(first.confidence_level, NlpConfidenceLevel::Low);
    let second = h[1].response.as_ref().unwrap();
    assert_eq!(h[1].query, "Unanswered question");
    assert_eq!(second.intent, FinancialQueryIntent::Unknown);
    assert_eq!(second.confidence, 0);
    assert_eq!(second.response_text, "");
    assert_eq!(h[2].query, "Last question");
    assert_eq!(h[2].response.as_ref().unwrap().intent, FinancialQueryIntent::Unknown);
}

#[test]
fn an_answer_without_question_gets_an_empty_query() {
    let manager = convert_from_stored(conversation(vec![message("assistant", "Hello!", None, None)]));
    let h = manager.get_history();
    assert_eq!(h.len(), 1);
    assert_eq!(h[0].query, "");
    assert_eq!(h[0].response.as_ref().unwrap().response_text, "Hello!");
}

#[test]
fn restoring_keeps_the_last_ten_turns() {
    let mut messages = Vec::new();
    for i in 0..12 {
        messages.push(message("user", &format!("q{}", i), None, None));
        messages.push(message("assistant", &format!("a{}", i), None, None));
    }
    let manager = convert_from_stored(conversation(messages));
    let h = manager.get_history();
    assert_eq!(h.len(), 10);
    assert_eq!(h[0].query, "q2");
    assert_eq!(h[9].response.as_ref().unwrap().response_text, "a11");
}

#[test]
fn storing_writes_messages_and_tags() {
    let mut p = PersistentConversationManager::new("client-9");
    assert!(!p.is_persisted());
    let c = p.add_user_query("When can I retire?");
    assert_eq!(c.messages.len(), 1);
    let pq = ProcessedQuery {
        original_text: "When can I retire?".to_string(),
        intent: FinancialQueryIntent::RetirementPlanning,
        intent_confidence: 800,
        entities: vec![],
        normalized_text: "when can i retire?".to_string(),
    };
    p.update_current_turn_with_processed_query(pq).unwrap();
    let c = p.update_current_turn_with_response(response("When can I retire?", "At 67.")).unwrap();
    p.mark_persisted();
    assert!(p.is_persisted());
    assert_eq!(c.user_id, "client-9");
    assert_eq!(c.messages.len(), 2);
    assert_eq!(c.messages[0].role, "user");
    assert_eq!(c.messages[0].intent.as_deref(), Some("RetirementPlanning"));
    assert_eq!(c.messages[0].intent_confidence, Some(800));
    assert_eq!(c.messages[1].role, "assistant");
    assert_eq!(c.messages[1].content, "At 67.");
    assert_eq!(c.tags, vec!["intent:RetirementPlanning".to_string()]);
    assert!(c.summary.is_none());
    // message times are the turn's time cut to whole seconds
    let turn_micros = p.get_manager().get_history()[0].timestamp.micros;
    assert_eq!(c.messages[0].timestamp.micros, turn_micros.div_euclid(1_000_000) * 1_000_000);
}

#[test]
fn store_and_restore_round_trip() {
    let mut p = PersistentConversationManager::new("client-1");
    p.add_user_query("How is my portfolio performing?");
    p.update_current_turn_with_response(response("How is my portfolio performing?", "Up 5%.")).unwrap();
    p.add_user_query("And my taxes?");
    let c = p.to_stored();
    let back = PersistentConversationManager::load(c);
    assert!(back.is_persisted());
    let h = back.get_manager().get_history();
    assert_eq!(h.len(), 2);
    assert_eq!(h[0].query, "How is my portfolio performing?");
    assert_eq!(h[0].response.as_ref().unwrap().response_text, "Up 5%.");
    assert_eq!(h[1].query, "And my taxes?");
    assert_eq!(h[1].response.as_ref().unwrap().response_text, "");
    assert_eq!(back.get_manager().get_id(), p.get_manager().get_id());
}

#[test]
fn updating_without_turns_is_an_error() {
    let mut p = PersistentConversationManager::new("c");
    assert!(p.update_current_turn_with_response(response("q", "t")).is_err());
    let c = p.add_goal(ConversationGoalType::PortfolioReview);
    assert!(c.messages.is_empty());
    assert_eq!(p.get_manager().get_active_goals().len(), 1);
    let direct = convert_to_stored(p.get_manager());
    assert_eq!(direct.id, c.id);
}
