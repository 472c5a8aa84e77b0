//! Validation of a language model's classification of a query, given as a
//! JSON value: the intent, its confidence and the entities it reports.

use vstd::prelude::*;
use crate::json::{JsonValue, json_field, get_field, unit_thousandths, read_unit_thousandths, json_document, parse_json};
use super::rule_based::{FinancialQueryIntent, EntityType};
use super::types::{ValidatedEntity, ValidatedLlmResponse};

verus! {

/// Why a language model's answer is refused.
#[derive(Debug, Clone, Copy, PartialEq, Eq, Structural)]
pub enum ValidationError {
    /// The answer is not JSON.
    InvalidJson,
    /// The answer has no `intent` field.
    MissingIntent,
    /// The `intent` field is not a string.
    IntentNotText,
    /// The answer has no `confidence` field.
    MissingConfidence,
    /// The `confidence` field is not a number.
    ConfidenceNotNumber,
    /// The confidence lies outside 0 to 1.
    ConfidenceOutOfRange,
    /// The answer has no `entities` field.
    MissingEntities,
    /// The `entities` field is not an array.
    EntitiesNotArray,
    /// An entity has no `type` field.
    MissingEntityType,
    /// An entity's `type` field is not a string.
    EntityTypeNotText,
    /// An entity has no `value` field.
    MissingEntityValue,
    /// An entity's `value` field is not a string.
    EntityValueNotText,
}

impl ValidationError {
    /// The error's message.
    pub open spec fn spec_message(self) -> Seq<char> {
        match self {
            ValidationError::InvalidJson => "Failed to parse LLM response as JSON"@,
            ValidationError::MissingIntent => "Missing 'intent' field in LLM response"@,
            ValidationError::IntentNotText => "'intent' field is not a string"@,
            ValidationError::MissingConfidence => "Missing 'confidence' field in LLM response"@,
            ValidationError::ConfidenceNotNumber => "'confidence' field is not a number"@,
            ValidationError::ConfidenceOutOfRange => "Confidence score must be between 0 and 1"@,
            ValidationError::MissingEntities => "Missing 'entities' field in LLM response"@,
            ValidationError::EntitiesNotArray => "'entities' field is not an array"@,
            ValidationError::MissingEntityType => "Missing 'type' field in entity"@,
            ValidationError::EntityTypeNotText => "'type' field is not a string"@,
            ValidationError::MissingEntityValue => "Missing 'value' field in entity"@,
            ValidationError::EntityValueNotText => "'value' field is not a string"@,
        }
    }

    /// The error's message.
    pub fn message(&self) -> (s: &'static str)
        ensures
            s@ == self.spec_message(),
    {
        match self {
            ValidationError::InvalidJson => "Failed to parse LLM response as JSON",
            ValidationError::MissingIntent => "Missing 'intent' field in LLM response",
            ValidationError::IntentNotText => "'intent' field is not a string",
            ValidationError::MissingConfidence => "Missing 'confidence' field in LLM response",
            ValidationError::ConfidenceNotNumber => "'confidence' field is not a number",
            ValidationError::ConfidenceOutOfRange => "Confidence score must be between 0 and 1",
            ValidationError::MissingEntities => "Missing 'entities' field in LLM response",
            ValidationError::EntitiesNotArray => "'entities' field is not an array",
            ValidationError::MissingEntityType => "Missing 'type' field in entity",
            ValidationError::EntityTypeNotText => "'type' field is not a string",
            ValidationError::MissingEntityValue => "Missing 'value' field in entity",
            ValidationError::EntityValueNotText => "'value' field is not a string",
        }
    }
}

/// The intent a model names; names it may not answer with stand for
/// `Unknown`.
pub open spec fn validated_intent(name: Seq<char>) -> FinancialQueryIntent {
    if name == FinancialQueryIntent::PortfolioPerformance.spec_name() {
        FinancialQueryIntent::PortfolioPerformance
    } else if name == FinancialQueryIntent::AssetAllocation.spec_name() {
        FinancialQueryIntent::AssetAllocation
    } else if name == FinancialQueryIntent::GoalProgress.spec_name() {
        FinancialQueryIntent::GoalProgress
    } else if name == FinancialQueryIntent::TaxOptimization.spec_name() {
        FinancialQueryIntent::TaxOptimization
    } else if name == FinancialQueryIntent::RetirementPlanning.spec_name() {
        FinancialQueryIntent::RetirementPlanning
    } else if name == FinancialQueryIntent::CashFlowAnalysis.spec_name() {
        FinancialQueryIntent::CashFlowAnalysis
    } else if name == FinancialQueryIntent::InvestmentRecommendation.spec_name() {
        FinancialQueryIntent::InvestmentRecommendation
    } else if name == FinancialQueryIntent::RiskAssessment.spec_name() {
        FinancialQueryIntent::RiskAssessment
    } else if name == FinancialQueryIntent::MarketInformation.spec_name() {
        FinancialQueryIntent::MarketInformation
    } else if name == FinancialQueryIntent::FinancialEducation.spec_name() {
        FinancialQueryIntent::FinancialEducation
    } else if name == FinancialQueryIntent::AccountInformation.spec_name() {
        FinancialQueryIntent::AccountInformation
    } else if name == FinancialQueryIntent::TransactionHistory.spec_name() {
        FinancialQueryIntent::TransactionHistory
    } else if name == FinancialQueryIntent::BudgetAnalysis.spec_name() {
        FinancialQueryIntent::BudgetAnalysis
    } else if name == FinancialQueryIntent::DebtManagement.spec_name() {
        FinancialQueryIntent::DebtManagement
    } else if name == FinancialQueryIntent::InsuranceAnalysis.spec_name() {
        FinancialQueryIntent::InsuranceAnalysis
    } else if name == FinancialQueryIntent::EstatePlanning.spec_name() {
        FinancialQueryIntent::EstatePlanning
    } else if name == FinancialQueryIntent::CharitableGiving.spec_name() {
        FinancialQueryIntent::CharitableGiving
    } else {
        FinancialQueryIntent::Unknown
    }
}

/// The entity type a model names, when it is one a model may report.
pub open spec fn validated_entity_type(name: Seq<char>) -> Option<EntityType> {
    if name == EntityType::TimePeriod.spec_name() {
        Some(EntityType::TimePeriod)
    } else if name == EntityType::AccountType.spec_name() {
        Some(EntityType::AccountType)
    } else if name == EntityType::AssetClass.spec_name() {
        Some(EntityType::AssetClass)
    } else if name == EntityType::Goal.spec_name() {
        Some(EntityType::Goal)
    } else if name == EntityType::Amount.spec_name() {
        Some(EntityType::Amount)
    } else if name == EntityType::Date.spec_name() {
        Some(EntityType::Date)
    } else if name == EntityType::RiskLevel.spec_name() {
        Some(EntityType::RiskLevel)
    } else if name == EntityType::Metric.spec_name() {
        Some(EntityType::Metric)
    } else if name == EntityType::Security.spec_name() {
        Some(EntityType::Security)
    } else if name == EntityType::TaxType.spec_name() {
        Some(EntityType::TaxType)
    } else if name == EntityType::Expense.spec_name() {
        Some(EntityType::Expense)
    } else if name == EntityType::Income.spec_name() {
        Some(EntityType::Income)
    } else if name == EntityType::Insurance.spec_name() {
        Some(EntityType::Insurance)
    } else if name == EntityType::Debt.spec_name() {
        Some(EntityType::Debt)
    } else {
        None
    }
}

/// The text of a string value.
pub open spec fn as_text(v: JsonValue) -> Option<Seq<char>> {
    match v {
        JsonValue::Text(s) => Some(s@),
        _ => None,
    }
}

/// The confidence an entity reports, in thousandths: 800 when it reports
/// none, or no number between 0 and 1.
pub open spec fn entity_confidence(e: JsonValue) -> u32 {
    match json_field(e, "confidence"@) {
        Some(JsonValue::Number(t)) => match unit_thousandths(t@) {
            Some(k) => k,
            None => 800,
        },
        _ => 800,
    }
}

/// An entity as plain values: type, value, confidence in thousandths.
pub type EntityView = (EntityType, Seq<char>, u32);

/// One reported entity: its type (entities of other types are skipped),
/// value and confidence.
#[verifier::opaque]
pub open spec fn entity_result(e: JsonValue) -> Result<Option<EntityView>, ValidationError> {
    match json_field(e, "type"@) {
        None => Err(ValidationError::MissingEntityType),
        Some(t) => match as_text(t) {
            None => Err(ValidationError::EntityTypeNotText),
            Some(name) => match validated_entity_type(name) {
                None => Ok(None),
                Some(et) => match json_field(e, "value"@) {
                    None => Err(ValidationError::MissingEntityValue),
                    Some(v) => match as_text(v) {
                        None => Err(ValidationError::EntityValueNotText),
                        Some(value) => Ok(Some((et, value, entity_confidence(e)))),
                    },
                },
            },
        },
    }
}

/// The reported entities in order, or the first entity's error.
pub open spec fn entities_result(es: Seq<JsonValue>) -> Result<Seq<EntityView>, ValidationError>
    decreases es.len(),
{
    if es.len() == 0 {
        Ok(Seq::empty())
    } else {
        match entities_result(es.drop_last()) {
            Err(err) => Err(err),
            Ok(acc) => match entity_result(es.last()) {
                Err(err) => Err(err),
                Ok(None) => Ok(acc),
                Ok(Some(ev)) => Ok(acc.push(ev)),
            },
        }
    }
}

/// A validated answer as plain values: intent, confidence in thousandths,
/// entities, uncertainty, response text and explanation.
pub type ResponseView = (FinancialQueryIntent, u32, Seq<EntityView>, bool, Option<Seq<char>>, Option<Seq<char>>);

/// The text of the field, when it is a string.
pub open spec fn optional_text(v: JsonValue, key: Seq<char>) -> Option<Seq<char>> {
    match json_field(v, key) {
        Some(JsonValue::Text(s)) => Some(s@),
        _ => None,
    }
}

/// The validation of an answer: the intent (see `validated_intent`), then
/// the confidence (a number between 0 and 1), then the entities (see
/// `entities_result`), each refused as the error says; the answer is
/// uncertain only when its `uncertain` field is `true`, and carries its
/// `response_text` and `explanation` where they are strings.
pub open spec fn response_result(v: JsonValue) -> Result<ResponseView, ValidationError> {
    match json_field(v, "intent"@) {
        None => Err(ValidationError::MissingIntent),
        Some(i) => match as_text(i) {
            None => Err(ValidationError::IntentNotText),
            Some(name) => match json_field(v, "confidence"@) {
                None => Err(ValidationError::MissingConfidence),
                Some(JsonValue::Number(t)) => match unit_thousandths(t@) {
                    None => Err(ValidationError::ConfidenceOutOfRange),
                    Some(c) => match json_field(v, "entities"@) {
                        None => Err(ValidationError::MissingEntities),
                        Some(JsonValue::Array(es)) => match entities_result(es@) {
                            Err(err) => Err(err),
                            Ok(ents) => Ok((validated_intent(name), c, ents,
                                json_field(v, "uncertain"@) == Some(JsonValue::Bool(true)),
                                optional_text(v, "response_text"@), optional_text(v, "explanation"@))),
                        },
                        Some(_) => Err(ValidationError::EntitiesNotArray),
                    },
                },
                Some(_) => Err(ValidationError::ConfidenceNotNumber),
            },
        },
    }
}

/// A validated entity as plain values.
pub open spec fn entity_view(e: ValidatedEntity) -> EntityView {
    (e.entity_type, e.value@, e.confidence)
}

/// A validated answer as plain values.
pub open spec fn response_view(r: ValidatedLlmResponse) -> ResponseView {
    (r.intent, r.intent_confidence, r.entities@.map_values(|e: ValidatedEntity| entity_view(e)), r.is_uncertain,
        match r.response_text {
            Some(s) => Some(s@),
            None => None,
        }, match r.explanation {
            Some(s) => Some(s@),
            None => None,
        })
}

fn names_intent(name: &str, intent: FinancialQueryIntent) -> (b: bool)
    ensures
        b == (name@ == intent.spec_name()),
{
    crate::json::str_equals(name, intent.name())
}

fn names_entity_type(name: &str, t: EntityType) -> (b: bool)
    ensures
        b == (name@ == t.spec_name()),
{
    crate::json::str_equals(name, t.name())
}

/// The intent a model names (see `validated_intent`).
pub fn intent_from_name(name: &str) -> (i: FinancialQueryIntent)
    ensures
        i == validated_intent(name@),
{
    if names_intent(name, FinancialQueryIntent::PortfolioPerformance) {
        FinancialQueryIntent::PortfolioPerformance
    } else if names_intent(name, FinancialQueryIntent::AssetAllocation) {
        FinancialQueryIntent::AssetAllocation
    } else if names_intent(name, FinancialQueryIntent::GoalProgress) {
        FinancialQueryIntent::GoalProgress
    } else if names_intent(name, FinancialQueryIntent::TaxOptimization) {
        FinancialQueryIntent::TaxOptimization
    } else if names_intent(name, FinancialQueryIntent::RetirementPlanning) {
        FinancialQueryIntent::RetirementPlanning
    } else if names_intent(name, FinancialQueryIntent::CashFlowAnalysis) {
        FinancialQueryIntent::CashFlowAnalysis
    } else if names_intent(name, FinancialQueryIntent::InvestmentRecommendation) {
        FinancialQueryIntent::InvestmentRecommendation
    } else if names_intent(name, FinancialQueryIntent::RiskAssessment) {
        FinancialQueryIntent::RiskAssessment
    } else if names_intent(name, FinancialQueryIntent::MarketInformation) {
        FinancialQueryIntent::MarketInformation
    } else if names_intent(name, FinancialQueryIntent::FinancialEducation) {
        FinancialQueryIntent::FinancialEducation
    } else if names_intent(name, FinancialQueryIntent::AccountInformation) {
        FinancialQueryIntent::AccountInformation
    } else if names_intent(name, FinancialQueryIntent::TransactionHistory) {
        FinancialQueryIntent::TransactionHistory
    } else if names_intent(name, FinancialQueryIntent::BudgetAnalysis) {
        FinancialQueryIntent::BudgetAnalysis
    } else if names_intent(name, FinancialQueryIntent::DebtManagement) {
        FinancialQueryIntent::DebtManagement
    } else if names_intent(name, FinancialQueryIntent::InsuranceAnalysis) {
        FinancialQueryIntent::InsuranceAnalysis
    } else if names_intent(name, FinancialQueryIntent::EstatePlanning) {
        FinancialQueryIntent::EstatePlanning
    } else if names_intent(name, FinancialQueryIntent::CharitableGiving) {
        FinancialQueryIntent::CharitableGiving
    } else {
        FinancialQueryIntent::Unknown
    }
}

/// The entity type a model names (see `validated_entity_type`).
pub fn entity_type_from_name(name: &str) -> (t: Option<EntityType>)
    ensures
        t == validated_entity_type(name@),
{
    if names_entity_type(name, EntityType::TimePeriod) {
        Some(EntityType::TimePeriod)
    } else if names_entity_type(name, EntityType::AccountType) {
        Some(EntityType::AccountType)
    } else if names_entity_type(name, EntityType::AssetClass) {
        Some(EntityType::AssetClass)
    } else if names_entity_type(name, EntityType::Goal) {
        Some(EntityType::Goal)
    } else if names_entity_type(name, EntityType::Amount) {
        Some(EntityType::Amount)
    } else if names_entity_type(name, EntityType::Date) {
        Some(EntityType::Date)
    } else if names_entity_type(name, EntityType::RiskLevel) {
        Some(EntityType::RiskLevel)
    } else if names_entity_type(name, EntityType::Metric) {
        Some(EntityType::Metric)
    } else if names_entity_type(name, EntityType::Security) {
        Some(EntityType::Security)
    } else if names_entity_type(name, EntityType::TaxType) {
        Some(EntityType::TaxType)
    } else if names_entity_type(name, EntityType::Expense) {
        Some(EntityType::Expense)
    } else if names_entity_type(name, EntityType::Income) {
        Some(EntityType::Income)
    } else if names_entity_type(name, EntityType::Insurance) {
        Some(EntityType::Insurance)
    } else if names_entity_type(name, EntityType::Debt) {
        Some(EntityType::Debt)
    } else {
        None
    }
}


fn text_of(v: &JsonValue) -> (r: Option<&String>)
    ensures
        match as_text(*v) {
            Some(t) => r is Some && r->0@ == t,
            None => r is None,
        },
{
    match v {
        JsonValue::Text(s) => Some(s),
        _ => None,
    }
}

fn optional_text_field(v: &JsonValue, key: &str) -> (r: Option<String>)
    ensures
        match optional_text(*v, key@) {
            Some(t) => r is Some && r->0@ == t,
            None => r is None,
        },
{
    match get_field(v, key) {
        Some(JsonValue::Text(s)) => Some(s.clone()),
        _ => None,
    }
}

fn confidence_of_entity(e: &JsonValue) -> (c: u32)
    ensures
        c == entity_confidence(*e),
{
    match get_field(e, "confidence") {
        Some(JsonValue::Number(t)) => match read_unit_thousandths(t.as_str()) {
            Some(k) => k,
            None => 800,
        },
        _ => 800,
    }
}

/// One reported entity (see `entity_result`).
pub fn validate_entity(e: &JsonValue) -> (r: Result<Option<ValidatedEntity>, ValidationError>)
    ensures
        match entity_result(*e) {
            Err(err) => r == Err::<Option<ValidatedEntity>, ValidationError>(err),
            Ok(None) => r == Ok::<Option<ValidatedEntity>, ValidationError>(None),
            Ok(Some(ev)) => r matches Ok(Some(ent)) && entity_view(ent) == ev,
        },
{
    reveal(entity_result);
    let t = match get_field(e, "type") {
        Some(t) => t,
        None => {
            return Err(ValidationError::MissingEntityType);
        },
    };
    let name = match text_of(t) {
        Some(n) => n,
        None => {
            return Err(ValidationError::EntityTypeNotText);
        },
    };
    let entity_type = match entity_type_from_name(name.as_str()) {
        Some(et) => et,
        None => {
            return Ok(None);
        },
    };
    let v = match get_field(e, "value") {
        Some(v) => v,
        None => {
            return Err(ValidationError::MissingEntityValue);
        },
    };
    let value = match text_of(v) {
        Some(s) => s.clone(),
        None => {
            return Err(ValidationError::EntityValueNotText);
        },
    };
    Ok(Some(ValidatedEntity { entity_type, value, confidence: confidence_of_entity(e) }))
}

/// The reported entities in order (see `entities_result`).
pub fn validate_entities(es: &Vec<JsonValue>) -> (r: Result<Vec<ValidatedEntity>, ValidationError>)
    ensures
        match entities_result(es@) {
            Err(err) => r == Err::<Vec<ValidatedEntity>, ValidationError>(err),
            Ok(evs) => r matches Ok(v) && v@.map_values(|e: ValidatedEntity| entity_view(e)) == evs,
        },
{
    let mut out: Vec<ValidatedEntity> = Vec::new();
    let mut i: usize = 0;
    assert(es@.subrange(0, 0) =~= Seq::<JsonValue>::empty());
    assert(out@.map_values(|e: ValidatedEntity| entity_view(e)) =~= Seq::<EntityView>::empty());
    while i < es.len()
        invariant
            i <= es@.len(),
            entities_result(es@.subrange(0, i as int)) matches Ok(acc)
                && out@.map_values(|e: ValidatedEntity| entity_view(e)) == acc,
        decreases es@.len() - i,
    {
        assert(es@.subrange(0, i + 1).drop_last() =~= es@.subrange(0, i as int));
        assert(es@.subrange(0, i + 1).last() == es@[i as int]);
        match validate_entity(&es[i]) {
            Err(err) => {
                proof {
                    lemma_entities_error_persists(es@, i as int + 1, err);
                }
                return Err(err);
            },
            Ok(None) => {},
            Ok(Some(ent)) => {
                let ghost before = out@;
                out.push(ent);
                assert(out@.map_values(|e: ValidatedEntity| entity_view(e)) =~= before.map_values(
                    |e: ValidatedEntity| entity_view(e)).push(entity_view(ent)));
            },
        }
        i = i + 1;
    }
    assert(es@.subrange(0, es@.len() as int) =~= es@);
    Ok(out)
}

proof fn lemma_entities_error_persists(es: Seq<JsonValue>, j: int, err: ValidationError)
    requires
        0 <= j <= es.len(),
        entities_result(es.subrange(0, j)) == Err::<Seq<EntityView>, ValidationError>(err),
    ensures
        entities_result(es) == Err::<Seq<EntityView>, ValidationError>(err),
    decreases es.len() - j,
{
    if j == es.len() {
        assert(es.subrange(0, j) =~= es);
    } else {
        assert(es.subrange(0, j + 1).drop_last() =~= es.subrange(0, j));
        lemma_entities_error_persists(es, j + 1, err);
    }
}

/// The validation of a model's answer (see `response_result`).
pub fn validate_parsed_response(v: &JsonValue) -> (r: Result<ValidatedLlmResponse, ValidationError>)
    ensures
        match response_result(*v) {
            Err(err) => r == Err::<ValidatedLlmResponse, ValidationError>(err),
            Ok(rv) => r matches Ok(resp) && response_view(resp) == rv,
        },
{
    let i = match get_field(v, "intent") {
        Some(i) => i,
        None => {
            return Err(ValidationError::MissingIntent);
        },
    };
    let name = match text_of(i) {
        Some(n) => n,
        None => {
            return Err(ValidationError::IntentNotText);
        },
    };
    let intent = intent_from_name(name.as_str());
    let c = match get_field(v, "confidence") {
        Some(c) => c,
        None => {
            return Err(ValidationError::MissingConfidence);
        },
    };
    let confidence = match c {
        JsonValue::Number(t) => match read_unit_thousandths(t.as_str()) {
            Some(k) => k,
            None => {
                return Err(ValidationError::ConfidenceOutOfRange);
            },
        },
        _ => {
            return Err(ValidationError::ConfidenceNotNumber);
        },
    };
    let es = match get_field(v, "entities") {
        Some(es) => es,
        None => {
            return Err(ValidationError::MissingEntities);
        },
    };
    let entities = match es {
        JsonValue::Array(items) => match validate_entities(items) {
            Ok(ents) => ents,
            Err(err) => {
                return Err(err);
            },
        },
        _ => {
            return Err(ValidationError::EntitiesNotArray);
        },
    };
    let is_uncertain = match get_field(v, "uncertain") {
        Some(JsonValue::Bool(b)) => *b,
        _ => false,
    };
    Ok(ValidatedLlmResponse {
        intent,
        intent_confidence: confidence,
        entities,
        is_uncertain,
        response_text: optional_text_field(v, "response_text"),
        explanation: optional_text_field(v, "explanation"),
    })
}

/// Validates a language model's answer, read as JSON (nothing when it is
/// not JSON): refused with `InvalidJson` when it is not JSON, otherwise as
/// `response_result` says.
pub fn validate_llm_response(response: Option<&JsonValue>) -> (r: Result<ValidatedLlmResponse, ValidationError>)
    ensures
        match response {
            None => r == Err::<ValidatedLlmResponse, ValidationError>(ValidationError::InvalidJson),
            Some(v) => match response_result(*v) {
                Err(err) => r == Err::<ValidatedLlmResponse, ValidationError>(err),
                Ok(rv) => r matches Ok(resp) && response_view(resp) == rv,
            },
        },
{
    match response {
        None => Err(ValidationError::InvalidJson),
        Some(v) => validate_parsed_response(v),
    }
}

/// Checks an answer against what is known of the client; every answer is
/// accepted as it is.
pub fn validate_response_facts(response: &str, _client_data: &str) -> (r: Result<String, ValidationError>)
    ensures
        r matches Ok(s) && s@ == response@,
{
    Ok(String::from_str(response))
}


proof fn lemma_entities_bounded(es: Seq<JsonValue>)
    ensures
        entities_result(es) matches Ok(evs) ==> forall|k: int| 0 <= k < evs.len() ==> (#[trigger] evs[k]).2 <= 1000,
    decreases es.len(),
{
    if es.len() > 0 {
        lemma_entities_bounded(es.drop_last());
        let e = es.last();
        reveal(entity_result);
        match json_field(e, "confidence"@) {
            Some(JsonValue::Number(t)) => {
                crate::json::lemma_unit_thousandths_bounded(t@);
            },
            _ => {},
        }
        assert(entity_confidence(e) <= 1000);
    }
}

/// Every confidence a validated answer carries, the intent's and each
/// entity's, lies between 0 and 1000 thousandths.
pub proof fn lemma_validated_confidences_bounded(v: JsonValue)
    ensures
        response_result(v) matches Ok(rv) ==> rv.1 <= 1000 && forall|k: int| 0 <= k < rv.2.len() ==> (#[trigger] rv.2[k]).2 <= 1000,
{
    match json_field(v, "confidence"@) {
        Some(JsonValue::Number(t)) => {
            crate::json::lemma_unit_thousandths_bounded(t@);
        },
        _ => {},
    }
    match json_field(v, "entities"@) {
        Some(JsonValue::Array(es)) => {
            lemma_entities_bounded(es@);
        },
        _ => {},
    }
}

/// Validates a language model's answer text: read as JSON (see
/// `json_document`), then as `validate_llm_response` says.
pub fn validate_llm_response_text(response: &str) -> (r: Result<ValidatedLlmResponse, ValidationError>)
    ensures
        match json_document(response@) {
            None => r == Err::<ValidatedLlmResponse, ValidationError>(ValidationError::InvalidJson),
            Some(v) => match response_result(v) {
                Err(err) => r == Err::<ValidatedLlmResponse, ValidationError>(err),
                Ok(rv) => r matches Ok(resp) && response_view(resp) == rv,
            },
        },
{
    let parsed = parse_json(response);
    match &parsed {
        Some(v) => validate_llm_response(Some(v)),
        None => validate_llm_response(None),
    }
}

} // verus!
