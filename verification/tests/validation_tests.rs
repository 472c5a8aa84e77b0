use investment_management::json::read_unit_thousandths;
use investment_management::nlp::rule_based::{EntityType, FinancialQueryIntent};
use investment_management::nlp::types::ValidatedLlmResponse;
use investment_management::nlp::validation::{
    validate_llm_response, validate_llm_response_text, validate_response_facts, ValidationError,
};

fn validate(response: &str) -> Result<ValidatedLlmResponse, ValidationError> {
    validate_llm_response_text(response)
}

#[test]
fn test_validate_valid_response() {
    let response = r#"{
            "intent": "PortfolioPerformance",
            "confidence": 0.85,
            "entities": [
                {
                    "type": "TimePeriod",
                    "value": "last year",
                    "confidence": 0.9
                }
            ],
            "uncertain": false
        }"#;

    let validated = validate(response).unwrap();

    assert_eq!(validated.intent, FinancialQueryIntent::PortfolioPerformance);
    // confidences are held in thousandths
    assert_eq!(validated.intent_confidence, 850);
    assert_eq!(validated.entities.len(), 1);
    assert_eq!(validated.entities[0].entity_type, EntityType::TimePeriod);
    assert_eq!(validated.entities[0].value, "last year");
    assert_eq!(validated.entities[0].confidence, 900);
    assert!(!validated.is_uncertain);
}

#[test]
fn test_validate_invalid_intent() {
    let response = r#"{
            "intent": "InvalidIntent",
            "confidence": 0.85,
            "entities": [],
            "uncertain": false
        }"#;

    let validated = validate(response).unwrap();
    assert_eq!(validated.intent, FinancialQueryIntent::Unknown);
}

#[test]
fn test_validate_missing_fields() {
    let response = r#"{
            "intent": "PortfolioPerformance"
        }"#;
    assert!(validate(response).is_err());
}

#[test]
fn test_validate_invalid_json() {
    let response = r#"This is not JSON"#;
    assert!(validate(response).is_err());
}

#[test]
fn each_error_in_its_case() {
    assert_eq!(validate("This is not JSON").unwrap_err(), ValidationError::InvalidJson);
    assert_eq!(validate("{}").unwrap_err(), ValidationError::MissingIntent);
    assert_eq!(validate(r#"{"intent": 3}"#).unwrap_err(), ValidationError::IntentNotText);
    assert_eq!(validate(r#"{"intent": "Help"}"#).unwrap_err(), ValidationError::MissingConfidence);
    assert_eq!(validate(r#"{"intent": "Help", "confidence": "high"}"#).unwrap_err(), ValidationError::ConfidenceNotNumber);
    assert_eq!(validate(r#"{"intent": "Help", "confidence": 1.5}"#).unwrap_err(), ValidationError::ConfidenceOutOfRange);
    assert_eq!(validate(r#"{"intent": "Help", "confidence": -0.1}"#).unwrap_err(), ValidationError::ConfidenceOutOfRange);
    assert_eq!(validate(r#"{"intent": "Help", "confidence": 1}"#).unwrap_err(), ValidationError::MissingEntities);
    assert_eq!(
        validate(r#"{"intent": "Help", "confidence": 1, "entities": {}}"#).unwrap_err(),
        ValidationError::EntitiesNotArray
    );
    assert_eq!(
        validate(r#"{"intent": "Help", "confidence": 1, "entities": [{"value": "x"}]}"#).unwrap_err(),
        ValidationError::MissingEntityType
    );
    assert_eq!(
        validate(r#"{"intent": "Help", "confidence": 1, "entities": [{"type": 1}]}"#).unwrap_err(),
        ValidationError::EntityTypeNotText
    );
    assert_eq!(
        validate(r#"{"intent": "Help", "confidence": 1, "entities": [{"type": "Goal"}]}"#).unwrap_err(),
        ValidationError::MissingEntityValue
    );
    assert_eq!(
        validate(r#"{"intent": "Help", "confidence": 1, "entities": [{"type": "Goal", "value": 2}]}"#).unwrap_err(),
        ValidationError::EntityValueNotText
    );
    assert_eq!(ValidationError::InvalidJson.message(), "Failed to parse LLM response as JSON");
}

#[test]
fn entities_of_other_types_are_skipped_and_confidence_defaults() {
    let v = validate(
        r#"{"intent": "GoalProgress", "confidence": 0, "uncertain": true, "response_text": "ok",
            "entities": [{"type": "Sector"}, {"type": "Goal", "value": "retire", "confidence": 7},
                         {"type": "Debt", "value": "loan"}]}"#,
    )
    .unwrap();
    // "Help" is not an intent a model may answer with
    assert_eq!(v.intent, FinancialQueryIntent::GoalProgress);
    assert_eq!(v.intent_confidence, 0);
    assert!(v.is_uncertain);
    assert_eq!(v.response_text.as_deref(), Some("ok"));
    assert!(v.explanation.is_none());
    assert_eq!(v.entities.len(), 2);
    assert_eq!(v.entities[0].entity_type, EntityType::Goal);
    assert_eq!(v.entities[0].confidence, 800);
    assert_eq!(v.entities[1].entity_type, EntityType::Debt);
    assert_eq!(v.entities[1].confidence, 800);
    assert_eq!(validate(r#"{"intent": "Help", "confidence": 1, "entities": []}"#).unwrap().intent,
        FinancialQueryIntent::Unknown);
}

#[test]
fn decimal_confidences_in_thousandths() {
    assert_eq!(read_unit_thousandths("0.85"), Some(850));
    assert_eq!(read_unit_thousandths("1"), Some(1000));
    assert_eq!(read_unit_thousandths("1.0"), Some(1000));
    assert_eq!(read_unit_thousandths("0"), Some(0));
    assert_eq!(read_unit_thousandths("0.0123"), Some(12));
    assert_eq!(read_unit_thousandths("1e-7"), Some(0));
    assert_eq!(read_unit_thousandths("5E-1"), Some(500));
    assert_eq!(read_unit_thousandths("1.0001"), None);
    assert_eq!(read_unit_thousandths("2"), None);
    assert_eq!(read_unit_thousandths("-0.5"), None);
    assert_eq!(read_unit_thousandths("-0"), Some(0));
    assert_eq!(read_unit_thousandths("abc"), None);
    assert_eq!(read_unit_thousandths("1e400"), None);
}

#[test]
fn facts_are_accepted_as_they_are() {
    assert_eq!(validate_response_facts("Your plan is on track.", "client").unwrap(), "Your plan is on track.");
}

#[test]
fn texts_that_are_not_json_are_refused() {
    assert_eq!(validate_llm_response(None).unwrap_err(), ValidationError::InvalidJson);
    assert_eq!(validate_llm_response_text("{\"intent\": ").unwrap_err(), ValidationError::InvalidJson);
    assert_eq!(validate_llm_response_text("").unwrap_err(), ValidationError::InvalidJson);
}
