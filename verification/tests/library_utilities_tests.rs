use investment_management::clock::Timestamp;
use investment_management::nlp::conversation_storage::new_conversation;
use investment_management::logging::{development_config, module_directives, production_config, LogLevel};
use investment_management::model_portfolio::{FactorModelApi, ModelPortfolioService};
use investment_management::nlp::bedrock::{
    classify_intent, format_fixed2, process_query as model_process_query, BedrockModelProvider,
};
use investment_management::nlp::conversation_manager::{ConversationManager, ConversationState};
use investment_management::nlp::conversation_summary::{
    FinancialEntity, FinancialEntityType, RuleBasedImportanceScorer,
};
use investment_management::nlp::embeddings::{cache_capacity, cache_entry_fresh, embedding_cache_key, TitanEmbeddingConfig};
use investment_management::nlp::enhanced_hybrid::{
    build_llm_prompt, generate_rule_based_response, update_conversation_state, EnhancedHybridConfig,
    EnhancedHybridService,
};
use investment_management::nlp::rule_based::FinancialQueryIntent;
use investment_management::performance_calculator::calculations::streaming::{StreamingConfig, StreamingProcessor};
use investment_management::ranking::{rank_desc, top_positive};
use investment_management::string_map::StringMap;
use investment_management::text::{split_whitespace, str_contains, to_decimal_signed};

#[test]
fn text_utilities() {
    assert_eq!(split_whitespace("  a  bc\td\n"), vec!["a", "bc", "d"]);
    assert!(str_contains("portfolio", "folio"));
    assert!(!str_contains("folio", "portfolio"));
    assert_eq!(to_decimal_signed(-42), "-42");
    assert_eq!(to_decimal_signed(0), "0");
}

#[test]
fn ranking_is_stable_and_descending() {
    let scores = vec![3u128, 0, 5, 3];
    assert_eq!(rank_desc(&scores), vec![2, 0, 3, 1]);
    assert_eq!(top_positive(&scores, 2), vec![2, 0]);
    assert_eq!(top_positive(&scores, 10), vec![2, 0, 3]);
}

#[test]
fn string_map_reads_what_was_written() {
    let mut m = StringMap::new();
    m.insert("a", "1");
    m.insert("b", "2");
    m.insert("a", "3");
    assert_eq!(m.get("a").unwrap(), "3");
    assert_eq!(m.get("b").unwrap(), "2");
    assert!(m.get("c").is_none());
    assert_eq!(m.len(), 2);
    assert_eq!(m.entry_at(0).0, "a");
}

#[test]
fn clock_and_identifiers() {
    assert_eq!(Timestamp { micros: -1 }.seconds(), -1);
    assert_eq!(Timestamp { micros: 1_999_999 }.seconds(), 1);
    let first = new_conversation("user");
    let second = new_conversation("user");
    assert!(first.created_at.micros > 0);
    assert_ne!(first.id, second.id);
}

#[test]
fn logging_configurations() {
    let dev = development_config();
    assert_eq!(dev.level, LogLevel::Debug);
    assert!(!dev.json_format);
    let prod = production_config();
    assert_eq!(prod.level, LogLevel::Info);
    assert!(prod.json_format);
    assert_eq!(prod.log_dir.as_deref(), Some("logs"));
    let directives = module_directives(&dev);
    assert!(directives.iter().any(|d| d == "hyper=INFO"));
    assert!(directives.iter().any(|d| d == "investment_management=DEBUG"));
}

#[test]
fn embedding_cache_rules() {
    let config = TitanEmbeddingConfig::default();
    assert_eq!(config.max_cache_size, 1000);
    assert_eq!(config.cache_ttl_seconds, 3600);
    assert_eq!(embedding_cache_key("hello"), "emb:hello");
    assert!(cache_entry_fresh(100, 0, 3600));
    assert!(!cache_entry_fresh(3600, 0, 3600));
    let mut zero = TitanEmbeddingConfig::default();
    zero.max_cache_size = 0;
    assert_eq!(cache_capacity(&zero), 1);
}

#[test]
fn model_side_helpers() {
    assert_eq!(BedrockModelProvider::Titan.model_id("text-express-v1"), "amazon.titan-text-express-v1");
    assert_eq!(format_fixed2(855), "0.86");
    assert_eq!(format_fixed2(1000), "1.00");
    assert_eq!(classify_intent("How is my portfolio?", "").intent, FinancialQueryIntent::PortfolioPerformance);
    assert_eq!(classify_intent("Tell me about taxes", "").intent, FinancialQueryIntent::TaxOptimization);
    assert_eq!(model_process_query("anything").intent_confidence, 850);
}

#[test]
fn enhanced_service_answers_with_patterns() {
    assert_eq!(EnhancedHybridConfig::default().rule_based_confidence_threshold, 700);
    assert_eq!(
        generate_rule_based_response("q", &FinancialQueryIntent::Greeting),
        "Hello! How can I help with your financial questions today?"
    );
    assert_eq!(
        generate_rule_based_response("q", &FinancialQueryIntent::Help),
        "I understand you're asking about Help. Let me help with that."
    );
    let mut manager = ConversationManager::new("c");
    update_conversation_state(&mut manager, &FinancialQueryIntent::TaxOptimization);
    assert_eq!(manager.get_state(), &ConversationState::Recommendation);

    let service = EnhancedHybridService::new_rule_based_only();
    let r = service.process_query("How is my portfolio performing?", None, None).unwrap();
    assert_eq!(r.intent, FinancialQueryIntent::PortfolioPerformance);
    manager.add_user_query("When can I retire?");
    let turn = service.process_conversation_turn(&mut manager, None).unwrap();
    assert!(turn.response.is_some());
    assert!(build_llm_prompt("Q?", None, "", None).contains("Q?"));
}

#[test]
fn importance_scoring() {
    let scorer = RuleBasedImportanceScorer::new();
    let entity = |t: FinancialEntityType, name: &str| FinancialEntity {
        entity_type: t,
        name: name.to_string(),
        attributes: StringMap::new(),
        importance: 0,
    };
    let scored = scorer.score_entities(&[
        entity(FinancialEntityType::Account, "My 401(k) plan"),
        entity(FinancialEntityType::Other("Boat".to_string()), "Sailboat"),
    ]);
    assert_eq!(scored[0].importance, 900);
    assert_eq!(scored[1].importance, 500);
}

#[test]
fn service_constructors() {
    let _ = ModelPortfolioService::new(FactorModelApi::new());
    let _ = StreamingProcessor::new(StreamingConfig::default());
}
