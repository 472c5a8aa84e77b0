use investment_management::nlp::rule_based::{EntityType, FinancialNlpService, FinancialQueryIntent};

#[test]
fn test_nlp_intent_recognition() {
    let nlp_service = FinancialNlpService::new();

    let result = nlp_service.process_query("How is my portfolio performing this year?").unwrap();
    assert_eq!(result.intent, FinancialQueryIntent::PortfolioPerformance);

    let result = nlp_service.process_query("When can I retire?").unwrap();
    assert_eq!(result.intent, FinancialQueryIntent::RetirementPlanning);

    let result = nlp_service.process_query("Am I on track for my retirement goal?").unwrap();
    assert_eq!(result.intent, FinancialQueryIntent::GoalProgress);

    let result = nlp_service.process_query("How much should I save for my child's college education?").unwrap();
    assert_eq!(result.intent, FinancialQueryIntent::EducationPlanning);

    let result = nlp_service.process_query("How can I reduce my taxes in retirement?").unwrap();
    assert!(result.intent == FinancialQueryIntent::TaxOptimization ||
            result.intent == FinancialQueryIntent::RetirementPlanning);

    let result = nlp_service.process_query("I'm getting married, how should we manage our finances?").unwrap();
    assert_eq!(result.intent, FinancialQueryIntent::MarriagePlanning);

    let result = nlp_service.process_query("I'm worried about market volatility, should I change my investments?").unwrap();
    assert_eq!(result.intent, FinancialQueryIntent::MarketVolatilityCoaching);

    let query = "I'm planning to retire in 10 years and want to optimize my portfolio for tax efficiency while maintaining a moderate risk level.";
    let result = nlp_service.process_query(query).unwrap();
    assert!(result.intent == FinancialQueryIntent::RetirementPlanning ||
            result.intent == FinancialQueryIntent::TaxOptimization ||
            result.intent == FinancialQueryIntent::AssetAllocation);

    let goals: Vec<_> = result.entities.iter().filter(|e| e.entity_type == EntityType::Goal).collect();
    let time_periods: Vec<_> = result.entities.iter().filter(|e| e.entity_type == EntityType::TimePeriod).collect();
    let risk_levels: Vec<_> = result.entities.iter().filter(|e| e.entity_type == EntityType::RiskLevel).collect();
    assert!(!goals.is_empty() || !time_periods.is_empty() || !risk_levels.is_empty());
}

#[test]
fn test_nlp_with_client_data() {
    // This scenario needs a model client; the rule-based service alone is exercised elsewhere.
}

#[test]
fn unknown_intent_has_zero_confidence() {
    let service = FinancialNlpService::new();
    let result = service.process_query("zzz qqq").unwrap();
    assert_eq!(result.intent, FinancialQueryIntent::Unknown);
    assert_eq!(result.intent_confidence, 0);
    assert_eq!(result.normalized_text, "zzz qqq");
    assert_eq!(result.original_text, "zzz qqq");
}

#[test]
fn recognized_intent_has_pattern_confidence() {
    let service = FinancialNlpService::new();
    let result = service.process_query("When can I retire?").unwrap();
    assert_eq!(result.intent_confidence, 800);
    assert_eq!(result.normalized_text, "when can i retire?");
}

#[test]
fn entities_are_the_matched_text() {
    let service = FinancialNlpService::new();
    let text = "I want to invest $50,000 in stocks";
    let result = service.process_query(text).unwrap();
    for e in &result.entities {
        assert!(e.start_pos <= e.end_pos);
        assert_eq!(&text[e.start_pos..e.end_pos], e.value);
        assert_eq!(e.confidence, 800);
    }
    assert!(result.entities.iter().any(|e| e.entity_type == EntityType::Amount && e.value == "$50,000"));
}

#[test]
fn responses_for_intents() {
    let service = FinancialNlpService::new();
    let pq = service.process_query("hello there").unwrap();
    assert_eq!(pq.intent, FinancialQueryIntent::Greeting);
    assert_eq!(service.generate_response(&pq),
        "Hello! I'm your financial advisor assistant. How can I help you with your financial planning today?");
    let pq = service.process_query("What is my name?").unwrap();
    assert_eq!(pq.intent, FinancialQueryIntent::Unknown);
    assert!(service.generate_response(&pq).starts_with("I don't have access to your personal information"));
    let pq = service.process_query("xyz").unwrap();
    assert!(service.generate_response(&pq).starts_with("I'm not sure I understand your question. I'm designed"));
}

#[test]
fn intent_names_display() {
    assert_eq!(FinancialQueryIntent::PortfolioPerformance.name(), "PortfolioPerformance");
    assert_eq!(FinancialQueryIntent::Unknown.name(), "Unknown");
    assert_eq!(EntityType::TimePeriod.name(), "TimePeriod");
}

#[test]
fn entity_offsets_locate_their_values() {
    let service = FinancialNlpService::new();
    let query = "Über my 401k and Roth IRA over the last year, with $50,000 saved";
    let processed = service.process_query(query).unwrap();
    assert!(!processed.entities.is_empty());
    for entity in &processed.entities {
        assert_eq!(&query[entity.start_pos..entity.end_pos], entity.value);
    }
}
