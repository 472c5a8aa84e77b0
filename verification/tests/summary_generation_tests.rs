use investment_management::clock::Timestamp;
use investment_management::json::JsonValue;
use investment_management::nlp::conversation_storage::{Conversation, ConversationMessage};
use investment_management::nlp::conversation_summary::{
    ConversationTopic, DecisionStatus, DecisionType, FinancialEntityType, SummaryType,
};
use investment_management::nlp::conversation_summary_bedrock::{
    assemble_summary, entity_extraction_prompt, filter_topics, format_conversation_text, parse_extracted_decisions, parse_extracted_decisions_text,
    parse_extracted_entities, parse_extracted_entities_text, parse_extracted_topics, parse_extracted_topics_text, relabel_summary, summary_conversation_id, summary_prompt,
    topic_summary, topic_summary_prompt, SummaryGenerationError,
};
use investment_management::string_map::StringMap;

fn to_json(v: serde_json::Value) -> JsonValue {
    match v {
        serde_json::Value::Null => JsonValue::Null,
        serde_json::Value::Bool(b) => JsonValue::Bool(b),
        serde_json::Value::Number(n) => JsonValue::Number(n.to_string()),
        serde_json::Value::String(s) => JsonValue::Text(s),
        serde_json::Value::Array(a) => JsonValue::Array(a.into_iter().map(to_json).collect()),
        serde_json::Value::Object(m) => JsonValue::Object(m.into_iter().map(|(k, v)| (k, to_json(v))).collect()),
    }
}

fn parse(text: &str) -> Option<JsonValue> {
    serde_json::from_str::<serde_json::Value>(text).ok().map(to_json)
}

fn message(id: &str, role: &str, content: &str) -> ConversationMessage {
    ConversationMessage {
        id: id.to_string(),
        timestamp: Timestamp { micros: 0 },
        role: role.to_string(),
        content: content.to_string(),
        intent: None,
        intent_confidence: None,
        metadata: None,
    }
}

fn conversation(messages: Vec<ConversationMessage>) -> Conversation {
    Conversation {
        id: "conv".to_string(),
        user_id: "u".to_string(),
        messages,
        created_at: Timestamp { micros: 0 },
        updated_at: Timestamp { micros: 0 },
        tags: vec![],
        summary: None,
        metadata: StringMap::new(),
    }
}

#[test]
fn conversation_text_for_prompts() {
    let c = conversation(vec![message("1", "user", "Hi"), message("2", "assistant", "Hello")]);
    assert_eq!(format_conversation_text(&c).unwrap(), "user: Hi\n\nassistant: Hello");
    assert_eq!(format_conversation_text(&conversation(vec![])).unwrap_err(), SummaryGenerationError::NoMessages);
}

#[test]
fn prompts_surround_the_conversation() {
    let p = summary_prompt(&SummaryType::Brief, "user: Hi").unwrap();
    assert!(p.starts_with("You are an expert financial advisor assistant. Your task is to create a very brief summary"));
    assert!(p.contains("Conversation:\nuser: Hi\n\nPlease provide a brief summary"));
    assert_eq!(
        summary_prompt(&SummaryType::TopicFocused("tax".to_string()), "x").unwrap_err(),
        SummaryGenerationError::TopicTemplateNotFound
    );
    assert!(entity_extraction_prompt("TEXT").contains("Conversation:\nTEXT\n\nPlease extract"));
    let t = topic_summary_prompt(&["tax".to_string(), "retirement".to_string()], "TEXT");
    assert!(t.contains("about the following topics: tax, retirement.\n"));
    assert!(t.contains("Conversation:\nTEXT\n\nPlease provide a focused summary"));
}

#[test]
fn reading_entities() {
    let answer = parse(
        r#"[{"entity_type": "Account", "name": "401(k)", "attributes": {"balance": "$250,000", "rate": 10}, "importance": "High"},
            {"entity_type": "Boat", "name": "Sailboat"},
            {"name": "no type"}]"#,
    );
    let entities = parse_extracted_entities(answer.as_ref()).unwrap();
    assert_eq!(entities.len(), 2);
    assert_eq!(entities[0].entity_type, FinancialEntityType::Account);
    assert_eq!(entities[0].name, "401(k)");
    assert_eq!(entities[0].attributes.get("balance").unwrap(), "$250,000");
    assert!(entities[0].attributes.get("rate").is_none());
    assert_eq!(entities[0].importance, 900);
    assert_eq!(entities[1].entity_type, FinancialEntityType::Other("Boat".to_string()));
    assert_eq!(entities[1].importance, 500);
    assert_eq!(parse_extracted_entities(parse("{}").as_ref()).unwrap_err(), SummaryGenerationError::AnswerNotJsonArray);
    assert_eq!(parse_extracted_entities(None).unwrap_err(), SummaryGenerationError::AnswerNotJsonArray);
}

#[test]
fn reading_decisions_and_topics() {
    let decisions = parse_extracted_decisions(
        parse(
            r#"[{"decision_type": "Investment", "description": "Raise 401(k) to 10%", "status": "Agreed",
                 "related_entities": ["401(k)", 3], "importance": "Low"},
                {"decision_type": "Gift", "description": "Give", "status": "Maybe"}]"#,
        )
        .as_ref(),
    )
    .unwrap();
    assert_eq!(decisions.len(), 2);
    assert_eq!(decisions[0].decision_type, DecisionType::Investment);
    assert_eq!(decisions[0].status, DecisionStatus::Agreed);
    assert_eq!(decisions[0].related_entities, vec!["401(k)".to_string()]);
    assert_eq!(decisions[0].importance, 300);
    assert_eq!(decisions[1].decision_type, DecisionType::Other("Gift".to_string()));
    assert_eq!(decisions[1].status, DecisionStatus::Proposed);

    let topics = parse_extracted_topics(
        parse(r#"[{"name": "Retirement Planning", "confidence": "Medium", "message_ids": ["m1"]}, {"confidence": "High"}]"#)
            .as_ref(),
    )
    .unwrap();
    assert_eq!(topics.len(), 1);
    assert_eq!(topics[0].name, "Retirement Planning");
    assert_eq!(topics[0].confidence, 600);
    assert_eq!(topics[0].message_ids, vec!["m1".to_string()]);
}

#[test]
fn summaries_are_assembled() {
    let c = conversation(vec![message("m1", "user", "Hi"), message("m2", "assistant", "Hello")]);
    let s = assemble_summary("conv", &c, "A greeting.".to_string(), vec![], vec![], vec![]).unwrap();
    assert_eq!(s.conversation_id, "conv");
    assert_eq!(s.content, "A greeting.");
    assert_eq!(s.last_message_id, "m2");
    assert_eq!(s.version, 1);
    assert_eq!(
        assemble_summary("conv", &conversation(vec![]), String::new(), vec![], vec![], vec![]).unwrap_err(),
        SummaryGenerationError::NoMessages
    );
    let relabeled = relabel_summary(s, "conv-summary");
    assert_eq!(relabeled.id, "conv-summary");
    let t = topic_summary("conv", &c, "Tax talk.".to_string(), vec![], vec![], vec![]).unwrap();
    assert_eq!(t.id, "conv-topic-summary");
}

#[test]
fn summary_identifiers_name_their_conversation() {
    assert_eq!(summary_conversation_id("abc-summary").unwrap(), "abc");
    assert_eq!(summary_conversation_id("a-b-c").unwrap(), "a");
    assert_eq!(summary_conversation_id("plain").unwrap_err(), SummaryGenerationError::InvalidSummaryId);
}

#[test]
fn only_requested_topics_are_kept() {
    let topic = |name: &str| ConversationTopic { name: name.to_string(), confidence: 500, message_ids: vec![] };
    let kept = filter_topics(
        vec![topic("Retirement Planning"), topic("Tax Strategy"), topic("Insurance")],
        &["retirement".to_string(), "TAX".to_string()],
    );
    assert_eq!(kept.len(), 2);
    assert_eq!(kept[0].name, "Retirement Planning");
    assert_eq!(kept[1].name, "Tax Strategy");
}

#[test]
fn reading_answer_texts() {
    let entities = parse_extracted_entities_text(
        r#"[{"entity_type": "Account", "name": "401(k)", "importance": "High"}, {"name": "no type"}]"#,
    )
    .unwrap();
    assert_eq!(entities.len(), 1);
    assert_eq!(entities[0].name, "401(k)");
    assert_eq!(entities[0].importance, 900);
    assert_eq!(parse_extracted_entities_text("not json").unwrap_err(), SummaryGenerationError::AnswerNotJsonArray);
    assert_eq!(parse_extracted_entities_text("{}").unwrap_err(), SummaryGenerationError::AnswerNotJsonArray);

    let decisions = parse_extracted_decisions_text(
        r#"[{"decision_type": "Investment", "description": "Raise 401(k) to 10%", "status": "Agreed"}]"#,
    )
    .unwrap();
    assert_eq!(decisions.len(), 1);
    assert_eq!(decisions[0].status, DecisionStatus::Agreed);
    assert_eq!(parse_extracted_decisions_text("[").unwrap_err(), SummaryGenerationError::AnswerNotJsonArray);

    let topics = parse_extracted_topics_text(r#"[{"name": "Taxes", "confidence": "Low"}]"#).unwrap();
    assert_eq!(topics.len(), 1);
    assert_eq!(topics[0].confidence, 300);
    assert_eq!(parse_extracted_topics_text("3").unwrap_err(), SummaryGenerationError::AnswerNotJsonArray);
}
