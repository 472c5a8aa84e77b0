use investment_management::nlp::hybrid::{HybridNlpService, HybridStep};
use investment_management::nlp::types::{NlpResponseSource, ValidatedLlmResponse};
use investment_management::nlp::rule_based::{EntityType, FinancialQueryIntent};

#[test]
fn test_rule_based_only() {
    let service = HybridNlpService::new_rule_based_only();
    assert!(!service.has_bedrock());
    // thresholds are held in thousandths
    assert_eq!(service.rule_based_confidence_threshold(), 700);
    assert_eq!(service.use_llm_for_responses(), false);
}

#[test]
fn test_with_configuration() {
    let service = HybridNlpService::new_rule_based_only()
        .with_rule_based_confidence_threshold(600)
        .with_llm_for_responses(true);

    assert_eq!(service.rule_based_confidence_threshold(), 600);
    assert_eq!(service.use_llm_for_responses(), true);
}

#[test]
fn test_rule_based_intent_recognition() {
    let service = HybridNlpService::new_rule_based_only();
    let rb = service.rule_based();

    let result = rb.process_query("How is my portfolio performing?").unwrap();
    assert_eq!(result.intent, FinancialQueryIntent::PortfolioPerformance);

    let result = rb.process_query("What is my current asset allocation?").unwrap();
    assert_eq!(result.intent, FinancialQueryIntent::AssetAllocation);

    let result = rb.process_query("When can I retire?").unwrap();
    assert_eq!(result.intent, FinancialQueryIntent::RetirementPlanning);

    let result = rb.process_query("When should I claim my social security benefits?").unwrap();
    assert!(
        result.intent == FinancialQueryIntent::SocialSecurityOptimization
            || result.intent == FinancialQueryIntent::RetirementPlanning
    );

    let result = rb.process_query("How can I reduce my taxes?").unwrap();
    assert_eq!(result.intent, FinancialQueryIntent::TaxOptimization);

    let result = rb.process_query("I want to invest in ESG funds").unwrap();
    assert!(
        result.intent == FinancialQueryIntent::SustainableInvesting
            || result.intent == FinancialQueryIntent::InvestmentRecommendation
    );

    let result = rb.process_query("I'm getting married, how should we manage our finances?").unwrap();
    assert_eq!(result.intent, FinancialQueryIntent::MarriagePlanning);

    let result = rb.process_query("How much should I save for my child's college education?").unwrap();
    assert_eq!(result.intent, FinancialQueryIntent::EducationPlanning);

    let result = rb.process_query("I'm worried about the market volatility, should I sell?").unwrap();
    assert_eq!(result.intent, FinancialQueryIntent::MarketVolatilityCoaching);
}

#[test]
fn test_entity_extraction() {
    let service = HybridNlpService::new_rule_based_only();
    let rb = service.rule_based();

    let result = rb.process_query("How has my portfolio performed over the last 3 years?").unwrap();
    let time_periods: Vec<_> = result.entities.iter().filter(|e| e.entity_type == EntityType::TimePeriod).collect();
    assert!(!time_periods.is_empty());
    assert!(time_periods.iter().any(|e| e.value.contains("3 years")));

    let result = rb.process_query("I want to invest $50,000 in stocks").unwrap();
    let amounts: Vec<_> = result.entities.iter().filter(|e| e.entity_type == EntityType::Amount).collect();
    assert!(!amounts.is_empty());
    assert!(amounts.iter().any(|e| e.value.contains("50,000")));

    let result = rb.process_query("What percentage of my portfolio is in bonds?").unwrap();
    let asset_classes: Vec<_> = result.entities.iter().filter(|e| e.entity_type == EntityType::AssetClass).collect();
    assert!(!asset_classes.is_empty());
    assert!(asset_classes.iter().any(|e| e.value.contains("bonds")));

    let result = rb.process_query("Am I on track for retirement?").unwrap();
    let goals: Vec<_> = result.entities.iter().filter(|e| e.entity_type == EntityType::Goal).collect();
    assert!(!goals.is_empty());
    assert!(goals.iter().any(|e| e.value.contains("retirement")));

    let result = rb.process_query("How will getting married affect my finances?").unwrap();
    let life_events: Vec<_> = result.entities.iter().filter(|e| e.entity_type == EntityType::LifeEvent).collect();
    assert!(!life_events.is_empty());
    assert!(life_events.iter().any(|e| e.value.contains("married")));

    let result = rb.process_query("I'm worried about the market crash").unwrap();
    let emotional_states: Vec<_> =
        result.entities.iter().filter(|e| e.entity_type == EntityType::EmotionalState).collect();
    assert!(!emotional_states.is_empty());
    assert!(emotional_states.iter().any(|e| e.value.contains("worried")));
}

#[test]
fn test_hybrid_processing() {
    let service = HybridNlpService::new_rule_based_only();
    let rb = service.rule_based();

    let result = rb.process_query("How is my portfolio performing?").unwrap();
    assert_eq!(result.intent, FinancialQueryIntent::PortfolioPerformance);

    let result = rb.process_query("I want to invest in a mix of stocks and bonds").unwrap();
    assert!(result.intent != FinancialQueryIntent::Unknown);

    let result = rb.process_query("How is my retirement goal progressing?").unwrap();
    assert_eq!(result.intent, FinancialQueryIntent::GoalProgress);
}

#[test]
fn test_complex_queries() {
    let service = HybridNlpService::new_rule_based_only();
    let rb = service.rule_based();

    let result = rb.process_query("How can I minimize taxes in my retirement planning?").unwrap();
    assert!(
        result.intent == FinancialQueryIntent::RetirementPlanning
            || result.intent == FinancialQueryIntent::TaxOptimization
    );
    let goals: Vec<_> = result.entities.iter().filter(|e| e.entity_type == EntityType::Goal).collect();
    let tax_types: Vec<_> = result.entities.iter().filter(|e| e.entity_type == EntityType::TaxType).collect();
    assert!(!goals.is_empty() || !tax_types.is_empty() || !result.entities.is_empty());

    let result = rb.process_query("I'm getting divorced next year, how should I adjust my financial plan?").unwrap();
    assert_eq!(result.intent, FinancialQueryIntent::DivorcePlanning);
    let life_events: Vec<_> = result.entities.iter().filter(|e| e.entity_type == EntityType::LifeEvent).collect();
    let dates: Vec<_> = result.entities.iter().filter(|e| e.entity_type == EntityType::Date).collect();
    assert!(!life_events.is_empty() || !dates.is_empty() || !result.entities.is_empty());
}

#[test]
fn confident_pattern_answer_needs_no_model() {
    let service = HybridNlpService::new_with_bedrock().with_llm_for_responses(false);
    assert!(service.has_bedrock());
    match service.start("How is my portfolio performing?").unwrap() {
        HybridStep::Respond(r) => {
            assert_eq!(r.intent, FinancialQueryIntent::PortfolioPerformance);
            assert_eq!(r.source, NlpResponseSource::RuleBased);
            assert_eq!(r.explanation.unwrap(), "Intent and response generated using rule-based");
        }
        other => panic!("unexpected step {:?}", other),
    }
}

#[test]
fn unsure_patterns_ask_the_model_then_answer() {
    let service = HybridNlpService::new_with_bedrock().with_llm_for_responses(false);
    let step = service.start("Tell me something").unwrap();
    let progress = match step {
        HybridStep::ClassifyWithModel(p) => p,
        other => panic!("unexpected step {:?}", other),
    };
    let model = ValidatedLlmResponse {
        intent: FinancialQueryIntent::FinancialEducation,
        intent_confidence: 800,
        entities: vec![],
        is_uncertain: false,
        response_text: None,
        explanation: None,
    };
    match service.after_model_intent(progress, model) {
        HybridStep::Respond(r) => {
            assert_eq!(r.intent, FinancialQueryIntent::FinancialEducation);
            assert_eq!(r.confidence, 800);
            assert_eq!(r.source, NlpResponseSource::Bedrock);
            assert_eq!(r.explanation.unwrap(), "Response generated using rule-based with intent from Bedrock");
        }
        other => panic!("unexpected step {:?}", other),
    }
}

#[test]
fn model_texts_are_requested_and_used() {
    let service = HybridNlpService::new_with_bedrock();
    assert!(service.use_llm_for_responses());
    let step = service.start("How is my portfolio performing?").unwrap();
    let (progress, intent) = match step {
        HybridStep::GenerateText(p, i) => (p, i),
        other => panic!("unexpected step {:?}", other),
    };
    assert_eq!(intent, FinancialQueryIntent::PortfolioPerformance);
    let r = service.after_model_text(progress, "Your portfolio is up.".to_string());
    assert_eq!(r.response_text, "Your portfolio is up.");
    assert_eq!(r.source, NlpResponseSource::Hybrid);
    assert_eq!(r.explanation.unwrap(), "Intent recognized using rule-based, response generated using LLM");
}

#[test]
fn client_data_rewrites_need_a_model() {
    let plain = HybridNlpService::new_rule_based_only();
    let r = match plain.start("How is my portfolio performing?").unwrap() {
        HybridStep::Respond(r) => r,
        other => panic!("unexpected step {:?}", other),
    };
    assert!(!plain.needs_client_data_text(&r));
    let with_model = HybridNlpService::new_with_bedrock();
    assert!(with_model.needs_client_data_text(&r));
    let quiet = HybridNlpService::new_with_bedrock().with_llm_for_responses(false);
    assert!(!quiet.needs_client_data_text(&r));
    let rewritten = HybridNlpService::with_client_data_text(r, "Your balance is up.".to_string());
    assert_eq!(rewritten.response_text, "Your balance is up.");
    assert_eq!(rewritten.source, NlpResponseSource::Hybrid);
}
