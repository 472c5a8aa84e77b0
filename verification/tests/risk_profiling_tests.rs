use investment_management::clock::Timestamp;
use investment_management::risk_profiling::{
    BehavioralBiasType, RiskProfileError, RiskProfileResponse, RiskProfilingService, RiskToleranceLevel,
};

fn response(id: &str, value: i32) -> RiskProfileResponse {
    RiskProfileResponse { question_id: id.to_string(), response_value: value, comments: None, timestamp: Timestamp { micros: 0 } }
}

#[test]
fn test_risk_profiling_service_initialization() {
    let service = RiskProfilingService::new();
    assert!(service.get_questionnaire("comprehensive_risk_profile").is_some());
}

#[test]
fn test_calculate_risk_tolerance() {
    let service = RiskProfilingService::new();
    let responses = vec![
        response("time_horizon", 3),
        response("income_stability", 4),
        response("emergency_fund", 3),
        response("market_decline_reaction", 3),
        response("risk_reward_tradeoff", 3),
    ];
    let risk_tolerance = service.calculate_risk_tolerance(&responses, "comprehensive_risk_profile").unwrap();
    assert_eq!(risk_tolerance, RiskToleranceLevel::Moderate);
}

#[test]
fn test_detect_behavioral_biases() {
    let service = RiskProfilingService::new();
    let responses = vec![response("loss_aversion", 1), response("herding", 1)];
    let biases = service.detect_behavioral_biases(&responses);
    assert_eq!(biases.len(), 2);
    assert!(biases.iter().any(|b| matches!(b, BehavioralBiasType::LossAversion)));
    assert!(biases.iter().any(|b| matches!(b, BehavioralBiasType::HerdMentality)));
}

#[test]
fn test_generate_risk_insights() {
    let service = RiskProfilingService::new();
    let risk_tolerance = RiskToleranceLevel::Moderate;
    let biases = vec![BehavioralBiasType::LossAversion, BehavioralBiasType::RecencyBias];
    let insights = service.generate_risk_insights(&risk_tolerance, &biases);
    assert_eq!(insights.len(), 3);
}

#[test]
fn risk_tolerance_errors() {
    let service = RiskProfilingService::new();
    assert_eq!(service.calculate_risk_tolerance(&[response("time_horizon", 1)], "nope"), Err(RiskProfileError::QuestionnaireNotFound));
    assert_eq!(service.calculate_risk_tolerance(&[response("unknown", 1)], "comprehensive_risk_profile"), Err(RiskProfileError::NoValidResponses));
    assert_eq!(service.calculate_risk_tolerance(&[response("time_horizon", 9)], "comprehensive_risk_profile"), Err(RiskProfileError::NoValidResponses));
}

#[test]
fn risk_tolerance_bands() {
    let service = RiskProfilingService::new();
    let id = "comprehensive_risk_profile";
    assert_eq!(service.calculate_risk_tolerance(&[response("time_horizon", 1)], id), Ok(RiskToleranceLevel::VeryConservative));
    assert_eq!(service.calculate_risk_tolerance(&[response("time_horizon", 2)], id), Ok(RiskToleranceLevel::Conservative));
    assert_eq!(service.calculate_risk_tolerance(&[response("time_horizon", 4)], id), Ok(RiskToleranceLevel::Aggressive));
    assert_eq!(service.calculate_risk_tolerance(&[response("time_horizon", 5)], id), Ok(RiskToleranceLevel::VeryAggressive));
    // (1.0 * 1.5 + 2.0 * 1.5) / 3.0 = 1.5 exactly: the band starts at 1.5
    assert_eq!(service.calculate_risk_tolerance(&[response("time_horizon", 1), response("time_horizon", 2)], id), Ok(RiskToleranceLevel::Conservative));
}

#[test]
fn biases_are_reported_once() {
    let service = RiskProfilingService::new();
    let responses = vec![response("overconfidence", 4), response("overconfidence", 3), response("loss_aversion", 2)];
    let biases = service.detect_behavioral_biases(&responses);
    assert_eq!(biases, vec![BehavioralBiasType::Overconfidence]);
}

#[test]
fn insights_skip_biases_without_text() {
    let service = RiskProfilingService::new();
    let insights = service.generate_risk_insights(&RiskToleranceLevel::Aggressive, &[BehavioralBiasType::Anchoring, BehavioralBiasType::HerdMentality]);
    assert_eq!(insights.len(), 2);
    assert!(insights[0].starts_with("Your aggressive risk profile"));
    assert!(insights[1].starts_with("You show signs of herding behavior"));
}

#[test]
fn higher_answers_never_lower_the_level() {
    let service = RiskProfilingService::new();
    let ids = ["time_horizon", "income_stability", "emergency_fund", "market_decline_reaction", "risk_reward_tradeoff"];
    let low: Vec<_> = ids.iter().map(|id| response(id, 1)).collect();
    let high: Vec<_> = ids.iter().map(|id| response(id, 5)).collect();
    let l = service.calculate_risk_tolerance(&low, "comprehensive_risk_profile").unwrap();
    let h = service.calculate_risk_tolerance(&high, "comprehensive_risk_profile").unwrap();
    assert_eq!(l, RiskToleranceLevel::VeryConservative);
    assert_eq!(h, RiskToleranceLevel::VeryAggressive);
}

#[test]
fn order_and_invalid_answers_do_not_change_the_level() {
    let service = RiskProfilingService::new();
    let answers = vec![response("time_horizon", 5), response("loss_aversion", 1), response("herding", 3)];
    let shuffled = vec![
        response("herding", 3),
        response("no_such_question", 5),
        response("time_horizon", 5),
        response("loss_aversion", 9),
        response("loss_aversion", 1),
    ];
    let first = service.calculate_risk_tolerance(&answers, "comprehensive_risk_profile").unwrap();
    let second = service.calculate_risk_tolerance(&shuffled, "comprehensive_risk_profile").unwrap();
    assert_eq!(first, second);
}

#[test]
fn default_questions_have_their_categories() {
    let service = RiskProfilingService::new();
    let q = service.get_questionnaire("comprehensive_risk_profile").unwrap();
    assert_eq!(q.name, "Comprehensive Risk Profile Assessment");
    assert_eq!(q.questions[0].category, "risk_capacity");
    assert_eq!(q.questions[3].category, "risk_willingness");
    assert_eq!(q.questions[10].category, "financial_knowledge");
    assert_eq!(q.questions[0].options[0].text, "Less than 1 year");
}
