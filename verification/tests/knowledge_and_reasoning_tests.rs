use std::sync::Arc;

use investment_management::nlp::knowledge_retriever::{
    KnowledgeItem, KnowledgeRetriever, KnowledgeRetrieverConfig, KnowledgeSourceType,
};
use investment_management::nlp::reasoning::{
    FinancialReasoningService, FinancialRecommendation, FinancialScenario, ReasoningChain, ReasoningServiceConfig,
    ReasoningStep, ReasoningStepType,
};
use investment_management::nlp::rule_based::FinancialQueryIntent;
use investment_management::nlp::types::NlpResponseSource;

fn create_test_knowledge_item(
    id: &str,
    title: &str,
    content: &str,
    source_type: KnowledgeSourceType,
    intents: Vec<FinancialQueryIntent>,
) -> KnowledgeItem {
    KnowledgeItem {
        id: id.to_string(),
        title: title.to_string(),
        content: content.to_string(),
        source_type,
        tags: vec![],
        related_intents: intents,
    }
}

fn two_item_retriever(first_intents: Vec<FinancialQueryIntent>) -> KnowledgeRetriever {
    let mut retriever = KnowledgeRetriever::new(KnowledgeRetrieverConfig::default());
    retriever
        .add_item(create_test_knowledge_item(
            "1",
            "Portfolio Diversification",
            "Diversification is a risk management strategy that mixes a wide variety of investments within a portfolio.",
            KnowledgeSourceType::InvestmentStrategy,
            first_intents,
        ))
        .unwrap();
    retriever
        .add_item(create_test_knowledge_item(
            "2",
            "Retirement Planning Basics",
            "Retirement planning is the process of determining retirement income goals and the actions necessary to achieve those goals.",
            KnowledgeSourceType::RetirementPlanning,
            vec![FinancialQueryIntent::RetirementPlanning],
        ))
        .unwrap();
    retriever
}

#[test]
fn test_retrieve_by_intent() {
    let retriever =
        two_item_retriever(vec![FinancialQueryIntent::AssetAllocation, FinancialQueryIntent::RiskAssessment]);

    let results = retriever.retrieve_by_intent(&FinancialQueryIntent::RetirementPlanning);
    assert_eq!(results.len(), 1);
    assert_eq!(results[0].id, "2");

    let results = retriever.retrieve_by_intent(&FinancialQueryIntent::AssetAllocation);
    assert_eq!(results.len(), 1);
    assert_eq!(results[0].id, "1");

    let results = retriever.retrieve_by_intent(&FinancialQueryIntent::TaxOptimization);
    assert_eq!(results.len(), 0);
}

#[test]
fn test_retrieve_by_source_type() {
    let retriever = two_item_retriever(vec![FinancialQueryIntent::AssetAllocation]);

    let results = retriever.retrieve_by_source_type(&KnowledgeSourceType::RetirementPlanning);
    assert_eq!(results.len(), 1);
    assert_eq!(results[0].id, "2");

    let results = retriever.retrieve_by_source_type(&KnowledgeSourceType::InvestmentStrategy);
    assert_eq!(results.len(), 1);
    assert_eq!(results[0].id, "1");

    let results = retriever.retrieve_by_source_type(&KnowledgeSourceType::TaxRules);
    assert_eq!(results.len(), 0);
}

#[test]
fn items_are_kept_in_order_and_found_by_id() {
    let mut retriever = two_item_retriever(vec![]);
    let again = create_test_knowledge_item("3", "Other", "Other", KnowledgeSourceType::TaxRules, vec![]);
    assert!(retriever.add_item(again).is_ok());
    assert_eq!(retriever.get_all_items().len(), 3);
    assert_eq!(retriever.get_all_items()[2].id, "3");
    assert_eq!(retriever.get_item_by_id("2").unwrap().title, "Retirement Planning Basics");
    assert!(retriever.get_item_by_id("4").is_none());
}

#[test]
fn query_retrieval_ranks_by_keyword_matches() {
    let retriever = two_item_retriever(vec![]);
    let results = retriever.retrieve_by_query("retirement income goals");
    assert_eq!(results.len(), 1);
    assert_eq!(results[0].id, "2");
    let results = retriever.retrieve_by_query("zzz");
    assert!(results.is_empty());
}

#[test]
fn tag_retrieval() {
    let mut retriever = KnowledgeRetriever::new(KnowledgeRetrieverConfig::default());
    let mut item = create_test_knowledge_item("t", "Taxes", "About taxes", KnowledgeSourceType::TaxRules, vec![]);
    item.tags = vec!["tax".to_string(), "ira".to_string()];
    retriever.add_item(item).unwrap();
    assert_eq!(retriever.retrieve_by_tags(&["ira".to_string()]).len(), 1);
    assert_eq!(retriever.retrieve_by_tags(&["bonds".to_string()]).len(), 0);
}

#[test]
fn test_reasoning_step() {
    let mut step = ReasoningStep::new(ReasoningStepType::InformationGathering, "Gathering information");

    step.add_input("query", "How much should I save for retirement?");
    step.add_output("status", "completed");

    assert_eq!(step.step_type, ReasoningStepType::InformationGathering);
    assert_eq!(step.description, "Gathering information");
    assert_eq!(step.input.get("query").unwrap(), "How much should I save for retirement?");
    assert_eq!(step.output.get("status").unwrap(), "completed");
}

#[test]
fn test_financial_scenario() {
    let mut scenario =
        FinancialScenario::new("scenario_1", "Base scenario", "Current savings rate and investment allocation");

    scenario.add_parameter("savings_rate", "15%");
    scenario.add_outcome("retirement_age", "67");
    // probabilities are held in thousandths
    scenario.set_success_probability(750);

    assert_eq!(scenario.id, "scenario_1");
    assert_eq!(scenario.name, "Base scenario");
    assert_eq!(scenario.parameters.get("savings_rate").unwrap(), "15%");
    assert_eq!(scenario.outcomes.get("retirement_age").unwrap(), "67");
    assert_eq!(scenario.success_probability.unwrap(), 750);
}

#[test]
fn test_financial_recommendation() {
    let mut recommendation = FinancialRecommendation::new(
        "rec_1",
        "Increase retirement contributions",
        "Increase your 401(k) contributions to the maximum allowed",
        "Retirement",
    );

    recommendation.set_priority(1);
    recommendation.add_action_step("Increase 401(k) contribution to 15% of salary");

    assert_eq!(recommendation.id, "rec_1");
    assert_eq!(recommendation.title, "Increase retirement contributions");
    assert_eq!(recommendation.priority, 1);
    assert_eq!(recommendation.action_steps[0], "Increase 401(k) contribution to 15% of salary");
}

#[test]
fn recommendation_levels_are_clamped() {
    let mut recommendation = FinancialRecommendation::new("r", "t", "d", "x");
    recommendation.set_priority(0);
    recommendation.set_impact(9);
    recommendation.set_effort(3);
    assert_eq!(recommendation.priority, 1);
    assert_eq!(recommendation.impact, 5);
    assert_eq!(recommendation.effort, 3);
}

#[test]
fn test_reasoning_chain() {
    let mut chain = ReasoningChain::new(
        "chain_1",
        "How much should I save for retirement?",
        FinancialQueryIntent::RetirementPlanning,
    );

    let step = ReasoningStep::new(ReasoningStepType::InformationGathering, "Gathering information");

    chain.add_step(step);

    assert_eq!(chain.id, "chain_1");
    assert_eq!(chain.query, "How much should I save for retirement?");
    assert_eq!(chain.intent, FinancialQueryIntent::RetirementPlanning);
    assert_eq!(chain.steps.len(), 1);
    assert_eq!(chain.steps[0].step_type, ReasoningStepType::InformationGathering);
}

#[test]
fn test_reasoning_service_config() {
    let config = ReasoningServiceConfig::default();

    assert!(config.use_llm);
    assert!(config.use_knowledge_retrieval);
    assert_eq!(config.max_reasoning_steps, 5);
    assert_eq!(config.max_scenarios, 3);
    assert_eq!(config.max_recommendations, 3);
}

#[test]
fn chain_summary_text() {
    let mut chain = ReasoningChain::new("c", "Q?", FinancialQueryIntent::RetirementPlanning);
    assert!(chain.get_last_step().is_none());
    chain.add_step(ReasoningStep::new(ReasoningStepType::ScenarioAnalysis, "Looking"));
    let summary = chain.generate_summary();
    assert!(summary.starts_with("Reasoning for query: \"Q?\"\nIntent: RetirementPlanning\n\n"));
    assert!(summary.contains("Looking"));
}

#[test]
fn service_builds_a_chain_and_a_response() {
    let service = FinancialReasoningService::new(ReasoningServiceConfig::default());
    let chain = service.generate_reasoning_chain(
        "How much should I save for retirement?",
        FinancialQueryIntent::RetirementPlanning,
        None,
        None,
    );
    assert!(chain.id.starts_with("chain_"));
    assert!(!chain.steps.is_empty());
    let response = service.generate_response(&chain);
    assert_eq!(response.intent, FinancialQueryIntent::RetirementPlanning);
    assert_eq!(response.confidence, 900);
    assert_eq!(response.source, NlpResponseSource::Reasoning);
    assert_eq!(response.explanation.unwrap(), chain.generate_summary());
}

#[test]
fn service_with_retriever_gathers_knowledge() {
    let retriever = two_item_retriever(vec![FinancialQueryIntent::AssetAllocation]);
    let service =
        FinancialReasoningService::new(ReasoningServiceConfig::default()).with_knowledge_retriever(Arc::new(retriever));
    let chain = service.generate_reasoning_chain(
        "retirement income",
        FinancialQueryIntent::RetirementPlanning,
        Some("client data"),
        None,
    );
    assert!(chain.steps[0].input.get("knowledge").unwrap().contains("Retirement Planning Basics"));
}

#[test]
fn chains_keep_to_the_configured_limits() {
    let config = ReasoningServiceConfig {
        max_reasoning_steps: 2,
        max_scenarios: 1,
        max_recommendations: 1,
        ..ReasoningServiceConfig::default()
    };
    let service = FinancialReasoningService::new(config);
    let chain = service.generate_reasoning_chain(
        "How much should I save for retirement?",
        FinancialQueryIntent::RetirementPlanning,
        None,
        None,
    );
    assert_eq!(chain.steps.len(), 2);
    assert!(chain.scenarios.len() <= 1);
    assert!(chain.recommendations.len() <= 1);
    assert_eq!(chain.steps[0].description, "Gathering relevant information");
}
