use investment_management::nlp::bedrock::{backoff_millis, retry_decision, should_retry, RetryDecision, MAX_RETRIES};

#[test]
fn retries_back_off_and_stop() {
    assert_eq!(backoff_millis(0), 100);
    assert_eq!(backoff_millis(1), 200);
    assert_eq!(backoff_millis(3), 800);
    assert_eq!(retry_decision(0, Some("ThrottlingException")), RetryDecision::RetryAfter(200));
    assert_eq!(retry_decision(1, Some("ThrottlingException")), RetryDecision::RetryAfter(400));
    assert_eq!(retry_decision(MAX_RETRIES, Some("ThrottlingException")), RetryDecision::GiveUpExhausted);
}

#[test]
fn client_errors_are_not_retried() {
    assert!(!should_retry(Some("400")));
    assert!(should_retry(Some("503")));
    assert!(should_retry(None));
    assert_eq!(retry_decision(0, Some("404")), RetryDecision::GiveUpClientError);
}

use investment_management::json::JsonValue;
use investment_management::nlp::bedrock::{
    model_request_body, model_response_text, model_response_text_from, thousandths_number, trim_answer,
    BedrockModelProvider, BedrockNlpConfig,
    ModelResponseError,
};

#[test]
fn model_config_defaults() {
    let c = BedrockNlpConfig::default();
    assert_eq!(c.provider, BedrockModelProvider::Claude);
    assert_eq!(c.version, "v2");
    assert_eq!(c.temperature, 200);
    assert_eq!(c.max_tokens, 1000);
    assert_eq!(c.top_p, 900);
    assert_eq!(c.top_k, 250);
    assert_eq!(c.stop_sequences, vec!["\n\nHuman:".to_string()]);
}

#[test]
fn numbers_in_thousandths() {
    assert_eq!(thousandths_number(200), "0.2");
    assert_eq!(thousandths_number(1000), "1.0");
    assert_eq!(thousandths_number(125), "0.125");
    assert_eq!(thousandths_number(1050), "1.05");
    assert_eq!(thousandths_number(0), "0.0");
}

fn keys(v: &JsonValue) -> Vec<String> {
    match v {
        JsonValue::Object(fields) => fields.iter().map(|(k, _)| k.clone()).collect(),
        _ => vec![],
    }
}

#[test]
fn request_bodies() {
    let c = BedrockNlpConfig::default();
    let body = model_request_body(&c, "Hello");
    assert_eq!(keys(&body), vec!["prompt", "max_tokens_to_sample", "temperature", "top_p", "top_k", "stop_sequences"]);
    let mut other = BedrockNlpConfig::default();
    other.provider = BedrockModelProvider::Titan;
    let body = model_request_body(&other, "Hello");
    assert_eq!(keys(&body), vec!["prompt", "max_tokens", "temperature", "top_p", "stop"]);
    match &body {
        JsonValue::Object(fields) => match &fields[2].1 {
            JsonValue::Number(n) => assert_eq!(n, "0.2"),
            _ => panic!("temperature is not a number"),
        },
        _ => panic!("body is not an object"),
    }
}

#[test]
fn reading_model_answers() {
    let answer = JsonValue::Object(vec![("completion".to_string(), JsonValue::Text(" Hi there ".to_string()))]);
    let text = model_response_text(BedrockModelProvider::Claude, Some(&answer)).unwrap();
    assert_eq!(text, " Hi there ");
    assert_eq!(trim_answer(&text), "Hi there");
    assert_eq!(
        model_response_text(BedrockModelProvider::Titan, Some(&answer)).unwrap_err(),
        ModelResponseError::UnreadableResponse
    );
    assert!(model_response_text(BedrockModelProvider::Claude, None).is_err());
    assert_eq!(trim_answer("  \n "), "");
}

#[test]
fn reading_model_answer_bodies() {
    let text = model_response_text_from(BedrockModelProvider::Claude, r#"{"completion": " Hi there "}"#).unwrap();
    assert_eq!(text, " Hi there ");
    assert_eq!(
        model_response_text_from(BedrockModelProvider::Claude, "not json").unwrap_err(),
        ModelResponseError::UnreadableResponse
    );
    assert_eq!(
        model_response_text_from(BedrockModelProvider::Titan, r#"{"completion": "x"}"#).unwrap_err(),
        ModelResponseError::UnreadableResponse
    );
}
