//! Shared result types of query processing.

use vstd::prelude::*;
use super::rule_based::{FinancialQueryIntent, EntityType, ProcessedQuery};

verus! {

/// Which component produced a response.
#[derive(Debug, Clone, Copy, PartialEq, Eq, Structural)]
pub enum NlpResponseSource {
    /// Pattern-based processing
    RuleBased,
    /// A language model
    Bedrock,
    /// Pattern-based intent with model-generated text, or a mix of sources
    Hybrid,
    /// The reasoning service
    Reasoning,
}

/// Coarse confidence band of a response.
#[derive(Debug, Clone, Copy, PartialEq, Eq, Structural)]
pub enum NlpConfidenceLevel {
    High,
    Medium,
    Low,
}

/// The band of a confidence in thousandths: 800 and above high, 500 and
/// above medium, otherwise low.
pub open spec fn confidence_band(score: u32) -> NlpConfidenceLevel {
    if score >= 800 {
        NlpConfidenceLevel::High
    } else if score >= 500 {
        NlpConfidenceLevel::Medium
    } else {
        NlpConfidenceLevel::Low
    }
}

impl NlpConfidenceLevel {
    /// The band of a confidence given in thousandths.
    pub fn from_score(score: u32) -> (r: Self)
        ensures
            r == confidence_band(score),
    {
        if score >= 800 {
            NlpConfidenceLevel::High
        } else if score >= 500 {
            NlpConfidenceLevel::Medium
        } else {
            NlpConfidenceLevel::Low
        }
    }
}

/// An entity reported by a language model, after validation.
#[derive(Debug, Clone)]
pub struct ValidatedEntity {
    pub entity_type: EntityType,
    pub value: String,
    /// Confidence in thousandths
    pub confidence: u32,
}

/// A language model's answer, after validation.
#[derive(Debug, Clone)]
pub struct ValidatedLlmResponse {
    pub intent: FinancialQueryIntent,
    /// Intent confidence in thousandths
    pub intent_confidence: u32,
    pub entities: Vec<ValidatedEntity>,
    pub is_uncertain: bool,
    pub response_text: Option<String>,
    pub explanation: Option<String>,
}

/// A response to a user query.
#[derive(Debug, Clone)]
pub struct NlpResponse {
    /// The query answered
    pub query: String,
    /// The intent the answer is for
    pub intent: FinancialQueryIntent,
    /// Confidence in thousandths
    pub confidence: u32,
    /// The pattern-based processing of the query, where there was one
    pub processed_query: Option<ProcessedQuery>,
    /// The answer text
    pub response_text: String,
    /// Which component produced the answer
    pub source: NlpResponseSource,
    /// Band of the confidence
    pub confidence_level: NlpConfidenceLevel,
    /// Whether the confidence is below 400
    pub is_uncertain: bool,
    /// How the answer was produced
    pub explanation: Option<String>,
}

} // verus!
