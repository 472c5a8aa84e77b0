//! The decisions around a language-model service: model identifiers, the
//! retry policy for failed calls, the prompt for a response, the body of a
//! model call and the reading of its answer, and the keyword
//! classification used while no model is called.

use vstd::prelude::*;
use crate::text::{decimal, to_decimal, to_lowercase, lowercase, is_substring, str_contains, chars_of, push_char,
    is_whitespace, is_white_space};
use crate::json::{JsonValue, json_field, get_field, json_document, parse_json};
use super::rule_based::FinancialQueryIntent;
use super::types::{ValidatedEntity, ValidatedLlmResponse};

verus! {

/// Language-model provider.
#[derive(Debug, Clone, Copy, PartialEq, Eq, Structural)]
pub enum BedrockModelProvider {
    /// Amazon Titan
    Titan,
    /// Chat model family
    Claude,
    /// AI21 Labs Jurassic
    AI21,
    /// Cohere Command
    Cohere,
    /// Meta Llama
    Llama,
}

impl BedrockModelProvider {
    /// The prefix of the provider's model identifiers.
    pub open spec fn spec_prefix(self) -> Seq<char> {
        match self {
            BedrockModelProvider::Titan => "amazon.titan-"@,
            BedrockModelProvider::Claude => Seq::empty(),
            BedrockModelProvider::AI21 => "ai21.j2-"@,
            BedrockModelProvider::Cohere => "cohere.command-"@,
            BedrockModelProvider::Llama => "meta.llama-"@,
        }
    }

    /// The model identifier for a version: the provider's prefix followed
    /// by the version. For the chat family this crate writes no prefix, so
    /// its identifiers are the version as given, which must then be the
    /// full identifier.
    pub fn model_id(&self, version: &str) -> (id: String)
        ensures
            id@ == self.spec_prefix() + version@,
    {
        let prefix = match self {
            BedrockModelProvider::Titan => "amazon.titan-",
            BedrockModelProvider::Claude => {
                return String::from_str(version);
            },
            BedrockModelProvider::AI21 => "ai21.j2-",
            BedrockModelProvider::Cohere => "cohere.command-",
            BedrockModelProvider::Llama => "meta.llama-",
        };
        let mut id = String::from_str(prefix);
        id.append(version);
        id
    }
}

/// How many times a failed model call is retried.
pub const MAX_RETRIES: u32 = 3;

/// Whether a failed call with the error code (if the error had one) is
/// worth retrying: throttling and server errors (codes starting with `5`)
/// are, client errors (codes starting with `4`) are not, and so is any
/// other failure.
pub open spec fn retryable(code: Option<Seq<char>>) -> bool {
    match code {
        Some(c) => {
            if c == "ThrottlingException"@ {
                true
            } else if c.len() > 0 && c[0] == '5' {
                true
            } else if c.len() > 0 && c[0] == '4' {
                false
            } else {
                true
            }
        },
        None => true,
    }
}

/// Whether a failed call with the error code is worth retrying (see
/// `retryable`).
pub fn should_retry(code: Option<&str>) -> (b: bool)
    ensures
        b == retryable(match code {
            Some(c) => Some(c@),
            None => None,
        }),
{
    match code {
        Some(c) => {
            let cs = String::from_str(c);
            let throttling = String::from_str("ThrottlingException");
            if cs == throttling {
                return true;
            }
            if c.is_empty() {
                return true;
            }
            let first = c.get_char(0);
            if first == '5' {
                true
            } else if first == '4' {
                false
            } else {
                true
            }
        },
        None => true,
    }
}

/// The wait before retry number `retry` (from 1): 100 ms doubled `retry`
/// times.
pub open spec fn backoff(retry: nat) -> nat
    decreases retry,
{
    if retry == 0 {
        100
    } else {
        2 * backoff((retry - 1) as nat)
    }
}

/// The wait in milliseconds before retry number `retry`.
pub fn backoff_millis(retry: u32) -> (ms: u64)
    requires
        retry <= MAX_RETRIES,
    ensures
        ms == backoff(retry as nat),
{
    let mut ms: u64 = 100;
    let mut i: u32 = 0;
    while i < retry
        invariant
            i <= retry,
            retry <= MAX_RETRIES,
            ms == backoff(i as nat),
            ms <= 100 * 8,
        decreases retry - i,
    {
        assert(backoff(i as nat) <= 100 * 4) by {
            if i == 0 {
            } else if i == 1 {
                assert(backoff(1) == 200) by { reveal_with_fuel(backoff, 2); }
            } else {
                assert(backoff(2) == 400) by { reveal_with_fuel(backoff, 3); }
            }
        }
        ms = ms * 2;
        i = i + 1;
    }
    ms
}

/// What to do after a model call failed.
#[derive(Debug, Clone, Copy, PartialEq, Eq, Structural)]
pub enum RetryDecision {
    /// Wait this many milliseconds, then call again.
    RetryAfter(u64),
    /// Stop: the error is a client error.
    GiveUpClientError,
    /// Stop: every retry has been used.
    GiveUpExhausted,
}

/// The decision after call number `attempt` (from 0) failed with the code:
/// stop on a client error, stop once `MAX_RETRIES` retries are used,
/// otherwise retry after the backoff.
pub open spec fn retry_decision_spec(attempt: u32, code: Option<Seq<char>>) -> RetryDecision {
    if !retryable(code) {
        RetryDecision::GiveUpClientError
    } else if attempt >= MAX_RETRIES {
        RetryDecision::GiveUpExhausted
    } else {
        RetryDecision::RetryAfter(backoff((attempt + 1) as nat) as u64)
    }
}

/// The decision after call number `attempt` (from 0) failed with the code
/// (see `retry_decision_spec`).
pub fn retry_decision(attempt: u32, code: Option<&str>) -> (d: RetryDecision)
    ensures
        d == retry_decision_spec(attempt, match code {
            Some(c) => Some(c@),
            None => None,
        }),
{
    if !should_retry(code) {
        RetryDecision::GiveUpClientError
    } else if attempt >= MAX_RETRIES {
        RetryDecision::GiveUpExhausted
    } else {
        RetryDecision::RetryAfter(backoff_millis(attempt + 1))
    }
}

/// Retries are bounded and back off: a call is retried only while fewer
/// than `MAX_RETRIES` retries were made, and each further retry of a
/// retryable error waits twice as long as the one before.
pub proof fn lemma_retries_back_off(attempt: u32, code: Option<Seq<char>>)
    ensures
        retry_decision_spec(attempt, code) is RetryAfter ==> attempt < MAX_RETRIES,
        retryable(code) && attempt + 1 < MAX_RETRIES ==> (retry_decision_spec(attempt, code) matches RetryDecision::RetryAfter(w1)
            && retry_decision_spec((attempt + 1) as u32, code) matches RetryDecision::RetryAfter(w2) && w2 == 2 * w1),
{
    if retryable(code) && attempt + 1 < MAX_RETRIES {
        assert(backoff((attempt + 2) as nat) == 2 * backoff((attempt + 1) as nat));
        assert(backoff((attempt + 1) as nat) <= 800) by {
            reveal_with_fuel(backoff, 4);
        }
    }
}

/// The intent a query is classified as while no model is called: the
/// first topic whose keyword the query contains, in the order portfolio,
/// retirement, tax, allocation, goals; financial education otherwise.
pub open spec fn keyword_intent(query: Seq<char>) -> FinancialQueryIntent {
    if is_substring("portfolio"@, query) || is_substring("performance"@, query) {
        FinancialQueryIntent::PortfolioPerformance
    } else if is_substring("retire"@, query) || is_substring("retirement"@, query) {
        FinancialQueryIntent::RetirementPlanning
    } else if is_substring("tax"@, query) {
        FinancialQueryIntent::TaxOptimization
    } else if is_substring("asset"@, query) || is_substring("allocation"@, query) {
        FinancialQueryIntent::AssetAllocation
    } else if is_substring("goal"@, query) || is_substring("progress"@, query) {
        FinancialQueryIntent::GoalProgress
    } else {
        FinancialQueryIntent::FinancialEducation
    }
}

/// Classifies the intent of a query by keywords (see `keyword_intent`), at
/// a confidence of 850 thousandths, with no entities and no text.
pub fn classify_intent(query: &str, context: &str) -> (r: ValidatedLlmResponse)
    ensures
        r.intent == keyword_intent(query@),
        r.intent_confidence == 850,
        r.entities@.len() == 0,
        !r.is_uncertain,
        r.response_text is None,
        r.explanation is None,
{
    let intent = if str_contains(query, "portfolio") || str_contains(query, "performance") {
        FinancialQueryIntent::PortfolioPerformance
    } else if str_contains(query, "retire") || str_contains(query, "retirement") {
        FinancialQueryIntent::RetirementPlanning
    } else if str_contains(query, "tax") {
        FinancialQueryIntent::TaxOptimization
    } else if str_contains(query, "asset") || str_contains(query, "allocation") {
        FinancialQueryIntent::AssetAllocation
    } else if str_contains(query, "goal") || str_contains(query, "progress") {
        FinancialQueryIntent::GoalProgress
    } else {
        FinancialQueryIntent::FinancialEducation
    };
    ValidatedLlmResponse {
        intent,
        intent_confidence: 850,
        entities: Vec::new(),
        is_uncertain: false,
        response_text: None,
        explanation: None,
    }
}

/// The answer given for any query while no model is called: portfolio
/// performance at 850 thousandths, with a fixed text.
pub fn process_query(query: &str) -> (r: ValidatedLlmResponse)
    ensures
        r.intent == FinancialQueryIntent::PortfolioPerformance,
        r.intent_confidence == 850,
        r.entities@.len() == 0,
        !r.is_uncertain,
        r.response_text is Some,
        r.response_text->0@ == "Your portfolio is up 5% this year."@,
        r.explanation is None,
{
    ValidatedLlmResponse {
        intent: FinancialQueryIntent::PortfolioPerformance,
        intent_confidence: 850,
        entities: Vec::new(),
        is_uncertain: false,
        response_text: Some(String::from_str("Your portfolio is up 5% this year.")),
        explanation: None,
    }
}

/// Two decimal digits of a number below 100.
pub open spec fn two_digits(n: nat) -> Seq<char> {
    if n < 10 {
        "0"@ + decimal(n)
    } else {
        decimal(n)
    }
}

/// A value in thousandths shown with two decimals, rounding half up.
pub open spec fn fixed2(t: u32) -> Seq<char> {
    let hundredths = ((t as nat) + 5) / 10;
    decimal(hundredths / 100) + "."@ + two_digits(hundredths % 100)
}

/// Shows a value in thousandths with two decimals, rounding half up.
pub fn format_fixed2(t: u32) -> (s: String)
    ensures
        s@ == fixed2(t),
{
    let hundredths: u64 = ((t as u64) + 5) / 10;
    let mut s = to_decimal(hundredths / 100);
    s.append(".");
    let frac = hundredths % 100;
    if frac < 10 {
        s.append("0");
    }
    let digits = to_decimal(frac);
    s.append(digits.as_str());
    s
}

/// The entity lines of a prompt.
pub open spec fn entity_lines(entities: Seq<ValidatedEntity>) -> Seq<char>
    decreases entities.len(),
{
    if entities.len() == 0 {
        Seq::empty()
    } else {
        let e = entities.last();
        entity_lines(entities.drop_last()) + "- "@ + e.entity_type.spec_name() + ": "@ + e.value@ + " (confidence: "@
            + fixed2(e.confidence) + ")\n"@
    }
}

/// The instructions of a prompt for the intent.
pub open spec fn intent_instructions(intent: FinancialQueryIntent, query: Seq<char>) -> Seq<char> {
    if intent == FinancialQueryIntent::Greeting {
        "Respond with a friendly greeting. "@
            + "Introduce yourself as a financial advisor assistant and ask how you can help with financial planning.\n\n"@
    } else if intent == FinancialQueryIntent::PortfolioPerformance {
        "Provide a detailed analysis of the client's portfolio performance. "@
            + "Include information about returns, asset allocation, and any recommendations for improvement.\n\n"@
    } else if intent == FinancialQueryIntent::RetirementPlanning {
        "Provide retirement planning advice. "@ + "Consider the client's current savings, retirement goals, and time horizon.\n\n"@
    } else if intent == FinancialQueryIntent::TaxOptimization {
        "Provide tax optimization strategies. "@ + "Consider the client's income, investments, and tax situation.\n\n"@
    } else if intent == FinancialQueryIntent::GoalProgress {
        "Provide an analysis of the client's progress toward their financial goals. "@
            + "Consider their current savings, investment strategy, and time horizon.\n\n"@
    } else if intent == FinancialQueryIntent::Unknown {
        if is_substring("my name"@, lowercase(query)) || is_substring("who am i"@, lowercase(query)) {
            "The user is asking for personal information that you don't have access to. "@
                + "Politely explain that you don't have access to their personal information and redirect the conversation to financial topics. "@
                + "Offer to help with financial planning or investment questions instead.\n\n"@
        } else {
            "The user's query doesn't match any specific financial intent. "@
                + "Politely explain that you're designed to help with financial planning and investment questions. "@
                + "Ask them to rephrase their question or suggest some financial topics you can help with.\n\n"@
        }
    } else {
        "Provide helpful information about "@ + intent.spec_name() + ". "@
            + "Be specific, accurate, and tailored to the client's situation if possible.\n\n"@
    }
}

/// The prompt for a response: instructions, the conversation context
/// where there is one, the client information where given, the intent,
/// the entities where there are any, the query, instructions for the
/// intent, and the cue for the answer.
pub open spec fn response_prompt(
    query: Seq<char>,
    intent: FinancialQueryIntent,
    entities: Seq<ValidatedEntity>,
    client_information: Option<Seq<char>>,
    context: Seq<char>,
) -> Seq<char> {
    let p1 = "You are a professional financial advisor assistant. Provide helpful, accurate, and personalized financial advice.\n\n"@;
    let p2 = if context.len() > 0 { p1 + "Conversation context:\n"@ + context + "\n\n"@ } else { p1 };
    let p3 = match client_information {
        Some(info) => p2 + "Client information:\n"@ + info + "\n"@,
        None => p2,
    };
    let p4 = p3 + "Recognized intent: "@ + intent.spec_name() + "\n\n"@;
    let p5 = if entities.len() > 0 { p4 + "Extracted entities:\n"@ + entity_lines(entities) + "\n"@ } else { p4 };
    p5 + "User query: "@ + query + "\n\n"@ + intent_instructions(intent, query) + "Response:"@
}

fn append_intent_instructions(prompt: &mut String, intent: FinancialQueryIntent, query: &str)
    ensures
        final(prompt)@ == old(prompt)@ + intent_instructions(intent, query@),
{
    if intent == FinancialQueryIntent::Greeting {
        prompt.append("Respond with a friendly greeting. ");
        prompt.append("Introduce yourself as a financial advisor assistant and ask how you can help with financial planning.\n\n");
    } else if intent == FinancialQueryIntent::PortfolioPerformance {
        prompt.append("Provide a detailed analysis of the client's portfolio performance. ");
        prompt.append("Include information about returns, asset allocation, and any recommendations for improvement.\n\n");
    } else if intent == FinancialQueryIntent::RetirementPlanning {
        prompt.append("Provide retirement planning advice. ");
        prompt.append("Consider the client's current savings, retirement goals, and time horizon.\n\n");
    } else if intent == FinancialQueryIntent::TaxOptimization {
        prompt.append("Provide tax optimization strategies. ");
        prompt.append("Consider the client's income, investments, and tax situation.\n\n");
    } else if intent == FinancialQueryIntent::GoalProgress {
        prompt.append("Provide an analysis of the client's progress toward their financial goals. ");
        prompt.append("Consider their current savings, investment strategy, and time horizon.\n\n");
    } else if intent == FinancialQueryIntent::Unknown {
        let lowered = to_lowercase(query);
        if str_contains(lowered.as_str(), "my name") || str_contains(lowered.as_str(), "who am i") {
            prompt.append("The user is asking for personal information that you don't have access to. ");
            prompt.append("Politely explain that you don't have access to their personal information and redirect the conversation to financial topics. ");
            prompt.append("Offer to help with financial planning or investment questions instead.\n\n");
        } else {
            prompt.append("The user's query doesn't match any specific financial intent. ");
            prompt.append("Politely explain that you're designed to help with financial planning and investment questions. ");
            prompt.append("Ask them to rephrase their question or suggest some financial topics you can help with.\n\n");
        }
    } else {
        prompt.append("Provide helpful information about ");
        prompt.append(intent.name());
        prompt.append(". ");
        prompt.append("Be specific, accurate, and tailored to the client's situation if possible.\n\n");
    }
}

/// Builds the prompt asking a language model for a response (see
/// `response_prompt`); the client information comes already written out.
pub fn build_response_prompt(
    query: &str,
    intent: FinancialQueryIntent,
    entities: &[ValidatedEntity],
    client_information: Option<&str>,
    context: &str,
) -> (p: String)
    ensures
        p@ == response_prompt(query@, intent, entities@, match client_information {
            Some(i) => Some(i@),
            None => None,
        }, context@),
{
    let mut prompt = String::from_str(
        "You are a professional financial advisor assistant. Provide helpful, accurate, and personalized financial advice.\n\n",
    );
    if !context.is_empty() {
        prompt.append("Conversation context:\n");
        prompt.append(context);
        prompt.append("\n\n");
    }
    match client_information {
        Some(info) => {
            prompt.append("Client information:\n");
            prompt.append(info);
            prompt.append("\n");
        },
        None => {},
    }
    prompt.append("Recognized intent: ");
    prompt.append(intent.name());
    prompt.append("\n\n");
    if entities.len() > 0 {
        prompt.append("Extracted entities:\n");
        let ghost base = prompt@;
        let mut i: usize = 0;
        while i < entities.len()
            invariant
                i <= entities@.len(),
                prompt@ == base + entity_lines(entities@.subrange(0, i as int)),
            decreases entities@.len() - i,
        {
            let e = &entities[i];
            let conf = format_fixed2(e.confidence);
            prompt.append("- ");
            prompt.append(e.entity_type.name());
            prompt.append(": ");
            prompt.append(e.value.as_str());
            prompt.append(" (confidence: ");
            prompt.append(conf.as_str());
            prompt.append(")\n");
            assert(entities@.subrange(0, i + 1).drop_last() =~= entities@.subrange(0, i as int));
            i = i + 1;
        }
        assert(entities@.subrange(0, entities@.len() as int) =~= entities@);
        prompt.append("\n");
    }
    prompt.append("User query: ");
    prompt.append(query);
    prompt.append("\n\n");
    append_intent_instructions(&mut prompt, intent, query);
    prompt.append("Response:");
    prompt
}


/// Settings of the language model calls; temperature and top-p in
/// thousandths.
#[derive(Debug, Clone)]
pub struct BedrockNlpConfig {
    /// Model provider
    pub provider: BedrockModelProvider,
    /// Model version
    pub version: String,
    /// Temperature in thousandths
    pub temperature: u32,
    /// Maximum tokens to generate
    pub max_tokens: u32,
    /// Top-p sampling in thousandths
    pub top_p: u32,
    /// Top-k sampling
    pub top_k: u32,
    /// Stop sequences
    pub stop_sequences: Vec<String>,
}

impl Default for BedrockNlpConfig {
    fn default() -> (c: Self)
        ensures
            c.provider == BedrockModelProvider::Claude,
            c.version@ == "v2"@,
            c.temperature == 200,
            c.max_tokens == 1000,
            c.top_p == 900,
            c.top_k == 250,
            c.stop_sequences@.len() == 1,
            c.stop_sequences@[0]@ == "\n\nHuman:"@,
    {
        let mut stop_sequences: Vec<String> = Vec::new();
        stop_sequences.push(String::from_str("\n\nHuman:"));
        BedrockNlpConfig {
            provider: BedrockModelProvider::Claude,
            version: String::from_str("v2"),
            temperature: 200,
            max_tokens: 1000,
            top_p: 900,
            top_k: 250,
            stop_sequences,
        }
    }
}

/// The fraction digits of thousandths without trailing zeros (`0` for
/// none).
pub open spec fn fraction_digits(f: nat) -> Seq<char> {
    if f == 0 {
        "0"@
    } else if f % 100 == 0 {
        decimal(f / 100)
    } else if f % 10 == 0 {
        two_digits(f / 10)
    } else {
        two_digits(f / 10) + decimal(f % 10)
    }
}

/// A value in thousandths written as the shortest JSON number with a
/// fraction part: `0.2` for 200, `1.0` for 1000, `0.125` for 125.
pub open spec fn thousandths_text(t: nat) -> Seq<char> {
    decimal(t / 1000) + "."@ + fraction_digits(t % 1000)
}

/// Writes a value in thousandths as a JSON number (see
/// `thousandths_text`).
pub fn thousandths_number(t: u32) -> (s: String)
    ensures
        s@ == thousandths_text(t as nat),
{
    let whole = t / 1000;
    let f = t % 1000;
    let mut s = to_decimal(whole as u64);
    s.append(".");
    if f == 0 {
        s.append("0");
    } else if f % 100 == 0 {
        let d = to_decimal((f / 100) as u64);
        s.append(d.as_str());
    } else if f % 10 == 0 {
        let d = format_two_digits(f / 10);
        s.append(d.as_str());
    } else {
        let d = format_two_digits(f / 10);
        s.append(d.as_str());
        let e = to_decimal((f % 10) as u64);
        s.append(e.as_str());
    }
    s
}

fn format_two_digits(n: u32) -> (s: String)
    requires
        n < 100,
    ensures
        s@ == two_digits(n as nat),
{
    if n < 10 {
        let mut s = String::from_str("0");
        let d = to_decimal(n as u64);
        s.append(d.as_str());
        s
    } else {
        to_decimal(n as u64)
    }
}

/// A JSON string value.
pub open spec fn is_text(v: JsonValue, t: Seq<char>) -> bool {
    v matches JsonValue::Text(s) && s@ == t
}

/// A JSON number value.
pub open spec fn is_number(v: JsonValue, t: Seq<char>) -> bool {
    v matches JsonValue::Number(s) && s@ == t
}

/// A JSON array of the texts.
pub open spec fn is_text_array(v: JsonValue, ts: Seq<Seq<char>>) -> bool {
    v matches JsonValue::Array(items) && items@.len() == ts.len()
        && forall|i: int| 0 <= i < ts.len() ==> is_text(#[trigger] items@[i], ts[i])
}

/// The body of a model call for the prompt: for the chat model family the
/// fields `prompt`, `max_tokens_to_sample`, `temperature`, `top_p`,
/// `top_k` and `stop_sequences`; for the others `prompt`, `max_tokens`,
/// `temperature`, `top_p` and `stop`; in that order.
pub open spec fn is_request_body(v: JsonValue, config: BedrockNlpConfig, prompt: Seq<char>) -> bool {
    let stops = config.stop_sequences@.map_values(|s: String| s@);
    v matches JsonValue::Object(fields) && if config.provider == BedrockModelProvider::Claude {
        &&& fields@.len() == 6
        &&& fields@[0].0@ == "prompt"@ && is_text(fields@[0].1, prompt)
        &&& fields@[1].0@ == "max_tokens_to_sample"@ && is_number(fields@[1].1, decimal(config.max_tokens as nat))
        &&& fields@[2].0@ == "temperature"@ && is_number(fields@[2].1, thousandths_text(config.temperature as nat))
        &&& fields@[3].0@ == "top_p"@ && is_number(fields@[3].1, thousandths_text(config.top_p as nat))
        &&& fields@[4].0@ == "top_k"@ && is_number(fields@[4].1, decimal(config.top_k as nat))
        &&& fields@[5].0@ == "stop_sequences"@ && is_text_array(fields@[5].1, stops)
    } else {
        &&& fields@.len() == 5
        &&& fields@[0].0@ == "prompt"@ && is_text(fields@[0].1, prompt)
        &&& fields@[1].0@ == "max_tokens"@ && is_number(fields@[1].1, decimal(config.max_tokens as nat))
        &&& fields@[2].0@ == "temperature"@ && is_number(fields@[2].1, thousandths_text(config.temperature as nat))
        &&& fields@[3].0@ == "top_p"@ && is_number(fields@[3].1, thousandths_text(config.top_p as nat))
        &&& fields@[4].0@ == "stop"@ && is_text_array(fields@[4].1, stops)
    }
}

fn text_array(ts: &Vec<String>) -> (v: JsonValue)
    ensures
        is_text_array(v, ts@.map_values(|s: String| s@)),
{
    let mut items: Vec<JsonValue> = Vec::new();
    let mut i: usize = 0;
    while i < ts.len()
        invariant
            i <= ts@.len(),
            items@.len() == i,
            forall|k: int| 0 <= k < i ==> is_text(#[trigger] items@[k], ts@[k]@),
        decreases ts@.len() - i,
    {
        items.push(JsonValue::Text(ts[i].clone()));
        i = i + 1;
    }
    JsonValue::Array(items)
}

fn field(name: &str, v: JsonValue) -> (f: (String, JsonValue))
    ensures
        f.0@ == name@,
        f.1 == v,
{
    (String::from_str(name), v)
}

/// The body of a model call for the prompt (see `is_request_body`).
pub fn model_request_body(config: &BedrockNlpConfig, prompt: &str) -> (v: JsonValue)
    ensures
        is_request_body(v, *config, prompt@),
{
    let mut fields: Vec<(String, JsonValue)> = Vec::new();
    fields.push(field("prompt", JsonValue::Text(String::from_str(prompt))));
    let is_chat = match config.provider {
        BedrockModelProvider::Claude => true,
        _ => false,
    };
    if is_chat {
        fields.push(field("max_tokens_to_sample", JsonValue::Number(to_decimal(config.max_tokens as u64))));
    } else {
        fields.push(field("max_tokens", JsonValue::Number(to_decimal(config.max_tokens as u64))));
    }
    fields.push(field("temperature", JsonValue::Number(thousandths_number(config.temperature))));
    fields.push(field("top_p", JsonValue::Number(thousandths_number(config.top_p))));
    if is_chat {
        fields.push(field("top_k", JsonValue::Number(to_decimal(config.top_k as u64))));
        fields.push(field("stop_sequences", text_array(&config.stop_sequences)));
    } else {
        fields.push(field("stop", text_array(&config.stop_sequences)));
    }
    JsonValue::Object(fields)
}

/// Why a model's answer could not be read.
#[derive(Debug, Clone, Copy, PartialEq, Eq, Structural)]
pub enum ModelResponseError {
    /// The answer does not carry the generated text.
    UnreadableResponse,
}

/// The field that carries the generated text: `completion` for the chat
/// model family, `text` for the others.
pub open spec fn text_field_name(provider: BedrockModelProvider) -> Seq<char> {
    if provider == BedrockModelProvider::Claude {
        "completion"@
    } else {
        "text"@
    }
}

/// The generated text a model's answer carries: the string in its text
/// field (see `text_field_name`), or the one string of a one-element
/// array; nothing otherwise.
pub open spec fn answer_text(provider: BedrockModelProvider, answer: JsonValue) -> Option<Seq<char>> {
    match answer {
        JsonValue::Object(_) => match json_field(answer, text_field_name(provider)) {
            Some(JsonValue::Text(s)) => Some(s@),
            _ => None,
        },
        JsonValue::Array(items) => if items@.len() == 1 {
            match items@[0] {
                JsonValue::Text(s) => Some(s@),
                _ => None,
            }
        } else {
            None
        },
        _ => None,
    }
}

/// Reads the generated text of a model's answer (nothing when the answer is
/// not JSON; see `answer_text`).
pub fn model_response_text(provider: BedrockModelProvider, answer: Option<&JsonValue>) -> (r: Result<String, ModelResponseError>)
    ensures
        match answer {
            Some(a) => match answer_text(provider, *a) {
                Some(t) => r matches Ok(s) && s@ == t,
                None => r == Err::<String, ModelResponseError>(ModelResponseError::UnreadableResponse),
            },
            None => r == Err::<String, ModelResponseError>(ModelResponseError::UnreadableResponse),
        },
{
    let a = match answer {
        Some(a) => a,
        None => {
            return Err(ModelResponseError::UnreadableResponse);
        },
    };
    let key = match provider {
        BedrockModelProvider::Claude => "completion",
        _ => "text",
    };
    match a {
        JsonValue::Object(_) => match get_field(a, key) {
            Some(JsonValue::Text(s)) => Ok(s.clone()),
            _ => Err(ModelResponseError::UnreadableResponse),
        },
        JsonValue::Array(items) => {
            if items.len() == 1 {
                match &items[0] {
                    JsonValue::Text(s) => Ok(s.clone()),
                    _ => Err(ModelResponseError::UnreadableResponse),
                }
            } else {
                Err(ModelResponseError::UnreadableResponse)
            }
        },
        _ => Err(ModelResponseError::UnreadableResponse),
    }
}

/// The text without white space at either end.
pub open spec fn trimmed(s: Seq<char>) -> Seq<char> {
    let start = leading_space(s, 0);
    s.subrange(start, trailing_end(s, s.len() as int, start))
}

/// The first position at or after `i` that is not white space.
pub open spec fn leading_space(s: Seq<char>, i: int) -> int
    decreases s.len() - i,
{
    if i >= s.len() || !is_white_space(s[i]) {
        i
    } else {
        leading_space(s, i + 1)
    }
}

/// The end of the text once white space before `j` (and after `lo`) is
/// dropped.
pub open spec fn trailing_end(s: Seq<char>, j: int, lo: int) -> int
    decreases j - lo,
{
    if j <= lo || !is_white_space(s[j - 1]) {
        j
    } else {
        trailing_end(s, j - 1, lo)
    }
}

/// The model's text without white space at either end.
pub fn trim_answer(s: &str) -> (r: String)
    ensures
        r@ == trimmed(s@),
{
    let cs = chars_of(s);
    let n = cs.len();
    let mut i: usize = 0;
    while i < n && is_whitespace(cs[i])
        invariant
            i <= n,
            n == cs@.len(),
            cs@ == s@,
            leading_space(s@, 0) == leading_space(s@, i as int),
        decreases n - i,
    {
        i = i + 1;
    }
    let mut j: usize = n;
    while j > i && is_whitespace(cs[j - 1])
        invariant
            i <= j <= n,
            n == cs@.len(),
            cs@ == s@,
            leading_space(s@, 0) == i,
            trailing_end(s@, n as int, i as int) == trailing_end(s@, j as int, i as int),
        decreases j - i,
    {
        j = j - 1;
    }
    let mut r = String::new();
    let mut k: usize = i;
    while k < j
        invariant
            i <= k <= j,
            j <= n,
            n == cs@.len(),
            cs@ == s@,
            r@ == s@.subrange(i as int, k as int),
        decreases j - k,
    {
        push_char(&mut r, cs[k]);
        k = k + 1;
        assert(r@ =~= s@.subrange(i as int, k as int));
    }
    r
}

/// The text of a model's answer body: the body read as JSON (see
/// `json_document`), then as `model_response_text` says.
pub fn model_response_text_from(provider: BedrockModelProvider, answer: &str) -> (r: Result<String, ModelResponseError>)
    ensures
        match json_document(answer@) {
            Some(a) => match answer_text(provider, a) {
                Some(t) => r matches Ok(s) && s@ == t,
                None => r == Err::<String, ModelResponseError>(ModelResponseError::UnreadableResponse),
            },
            None => r == Err::<String, ModelResponseError>(ModelResponseError::UnreadableResponse),
        },
{
    let parsed = parse_json(answer);
    match &parsed {
        Some(a) => model_response_text(provider, Some(a)),
        None => model_response_text(provider, None),
    }
}

} // verus!
