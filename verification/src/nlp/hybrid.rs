//! Query processing that combines the pattern-based service with a
//! language model and an embedding service. The services are called by the
//! caller; this module decides, step by step, what to ask them and what to
//! answer.

use vstd::prelude::*;
use super::rule_based::{FinancialNlpService, ProcessedQuery, FinancialQueryIntent, ExtractedEntity,
    recognized_intent, table_entities, canned_response};
use super::types::{NlpResponse, NlpResponseSource, NlpConfidenceLevel, confidence_band, ValidatedLlmResponse};
use crate::text::lowercase;

verus! {

/// How the answer to a query is being produced.
#[derive(Debug, Clone, Copy, PartialEq, Eq, Structural)]
pub enum HybridMode {
    /// The pattern-based intent, with a text from the language model.
    PatternIntentModelText,
    /// The intent from the language model (or the embedding service), with
    /// a text from the language model.
    ModelIntentModelText,
}

/// What is known so far while answering a query.
#[derive(Debug)]
pub struct HybridProgress {
    /// The query
    pub query: String,
    /// The pattern-based processing of the query
    pub rule_based_result: ProcessedQuery,
    /// The embedding service's closest intent and its similarity in
    /// thousandths, where it was asked and answered
    pub embedding_intent: Option<(FinancialQueryIntent, u32)>,
    /// The intent chosen, its confidence in thousandths, the source it is
    /// credited to and how the text is produced, once chosen
    pub chosen: Option<(FinancialQueryIntent, u32, NlpResponseSource, HybridMode)>,
}

/// What the service needs next to answer a query.
#[derive(Debug)]
pub enum HybridStep {
    /// Ask the embedding service for the intent closest to the query, then
    /// call `after_similar_intent` with its answer (nothing if it failed).
    FindSimilarIntent(HybridProgress),
    /// Ask the language model to classify the query, then call
    /// `after_model_intent` with its answer.
    ClassifyWithModel(HybridProgress),
    /// Ask the language model for an answer text for the intent, then call
    /// `after_model_text` with it.
    GenerateText(HybridProgress, FinancialQueryIntent),
    /// The answer.
    Respond(NlpResponse),
}

/// The explanation for an answer whose intent came from the model and
/// whose text from the patterns.
pub open spec fn pattern_text_explanation(source: NlpResponseSource) -> Seq<char> {
    "Response generated using rule-based with intent from "@ + match source {
        NlpResponseSource::RuleBased => "RuleBased"@,
        NlpResponseSource::Bedrock => "Bedrock"@,
        NlpResponseSource::Hybrid => "Hybrid"@,
        NlpResponseSource::Reasoning => "Reasoning"@,
    }
}

/// Combines the pattern-based service with a language model and an
/// embedding service.
pub struct HybridNlpService {
    rule_based: FinancialNlpService,
    bedrock_attached: bool,
    embeddings_attached: bool,
    rule_based_confidence_threshold: u32,
    use_llm_for_responses: bool,
    use_embeddings_for_intents: bool,
}

impl HybridNlpService {
    /// The pattern-based service.
    pub closed spec fn patterns(&self) -> FinancialNlpService {
        self.rule_based
    }

    /// Whether a language-model client is attached.
    pub closed spec fn has_model(&self) -> bool {
        self.bedrock_attached
    }

    /// Whether an embedding service is attached.
    pub closed spec fn has_embeddings(&self) -> bool {
        self.embeddings_attached
    }

    /// Pattern confidence (thousandths) from which the pattern-based intent
    /// is used.
    pub closed spec fn threshold(&self) -> u32 {
        self.rule_based_confidence_threshold
    }

    /// Whether answer texts come from the model even for pattern-based
    /// intents.
    pub closed spec fn model_texts(&self) -> bool {
        self.use_llm_for_responses
    }

    /// Whether the embedding service is asked for intents.
    pub closed spec fn embedding_intents(&self) -> bool {
        self.use_embeddings_for_intents
    }

    /// A service with the default patterns, a threshold of 700 and nothing
    /// attached.
    pub fn new_rule_based_only() -> (s: Self)
        ensures
            !s.has_model(),
            !s.has_embeddings(),
            s.threshold() == 700,
            !s.model_texts(),
            !s.embedding_intents(),
    {
        Self {
            rule_based: FinancialNlpService::new(),
            bedrock_attached: false,
            embeddings_attached: false,
            rule_based_confidence_threshold: 700,
            use_llm_for_responses: false,
            use_embeddings_for_intents: false,
        }
    }

    /// A service with a language-model client attached, whose texts come
    /// from the model.
    pub fn new_with_bedrock() -> (s: Self)
        ensures
            s.has_model(),
            !s.has_embeddings(),
            s.threshold() == 700,
            s.model_texts(),
            !s.embedding_intents(),
    {
        Self {
            rule_based: FinancialNlpService::new(),
            bedrock_attached: true,
            embeddings_attached: false,
            rule_based_confidence_threshold: 700,
            use_llm_for_responses: true,
            use_embeddings_for_intents: false,
        }
    }

    /// A service with a language-model client and an embedding service
    /// attached, using both.
    pub fn new_with_embeddings() -> (s: Self)
        ensures
            s.has_model(),
            s.has_embeddings(),
            s.threshold() == 700,
            s.model_texts(),
            s.embedding_intents(),
    {
        Self {
            rule_based: FinancialNlpService::new(),
            bedrock_attached: true,
            embeddings_attached: true,
            rule_based_confidence_threshold: 700,
            use_llm_for_responses: true,
            use_embeddings_for_intents: true,
        }
    }

    /// The service with another threshold (thousandths).
    pub fn with_rule_based_confidence_threshold(self, threshold: u32) -> (s: Self)
        ensures
            s.threshold() == threshold,
            s.has_model() == self.has_model(),
            s.has_embeddings() == self.has_embeddings(),
            s.model_texts() == self.model_texts(),
            s.embedding_intents() == self.embedding_intents(),
            s.patterns() == self.patterns(),
    {
        Self { rule_based_confidence_threshold: threshold, ..self }
    }

    /// The service with answer texts from the model, or not.
    pub fn with_llm_for_responses(self, use_llm: bool) -> (s: Self)
        ensures
            s.model_texts() == use_llm,
            s.threshold() == self.threshold(),
            s.has_model() == self.has_model(),
            s.has_embeddings() == self.has_embeddings(),
            s.embedding_intents() == self.embedding_intents(),
            s.patterns() == self.patterns(),
    {
        Self { use_llm_for_responses: use_llm, ..self }
    }

    /// The service asking the embedding service for intents, or not.
    pub fn with_embeddings_for_intents(self, use_embeddings: bool) -> (s: Self)
        ensures
            s.embedding_intents() == use_embeddings,
            s.threshold() == self.threshold(),
            s.has_model() == self.has_model(),
            s.has_embeddings() == self.has_embeddings(),
            s.model_texts() == self.model_texts(),
            s.patterns() == self.patterns(),
    {
        Self { use_embeddings_for_intents: use_embeddings, ..self }
    }

    /// The pattern-based service.
    pub fn rule_based(&self) -> (r: &FinancialNlpService)
        ensures
            *r == self.patterns(),
    {
        &self.rule_based
    }

    /// Whether a language-model client is attached.
    pub fn has_bedrock(&self) -> (b: bool)
        ensures
            b == self.has_model(),
    {
        self.bedrock_attached
    }

    /// The threshold, in thousandths.
    pub fn rule_based_confidence_threshold(&self) -> (t: u32)
        ensures
            t == self.threshold(),
    {
        self.rule_based_confidence_threshold
    }

    /// Whether answer texts come from the model.
    pub fn use_llm_for_responses(&self) -> (b: bool)
        ensures
            b == self.model_texts(),
    {
        self.use_llm_for_responses
    }

    /// The progress holds the pattern-based processing of the query.
    pub open spec fn processed(&self, query: Seq<char>, p: HybridProgress) -> bool {
        let (ri, rc) = recognized_intent(self.patterns().intent_table(), lowercase(query));
        &&& p.query@ == query
        &&& p.rule_based_result.original_text@ == query
        &&& p.rule_based_result.normalized_text@ == lowercase(query)
        &&& p.rule_based_result.intent == ri
        &&& p.rule_based_result.intent_confidence == rc
        &&& p.rule_based_result.entities@.map_values(|e: ExtractedEntity| e.view_tuple())
            == table_entities(self.patterns().entity_table(), query, 0)
    }

    /// The pattern-based answer, carrying the processing in `p`.
    pub open spec fn pattern_answer(p: HybridProgress, resp: NlpResponse) -> bool {
        let rb = p.rule_based_result;
        &&& resp.query == p.query
        &&& resp.intent == rb.intent
        &&& resp.confidence == rb.intent_confidence
        &&& resp.processed_query == Some(rb)
        &&& resp.response_text@ == canned_response(rb.intent, rb.original_text@)
        &&& resp.source == NlpResponseSource::RuleBased
        &&& resp.confidence_level == confidence_band(rb.intent_confidence)
        &&& resp.is_uncertain == (rb.intent_confidence < 400)
        &&& resp.explanation is Some
        &&& resp.explanation->0@ == "Intent and response generated using rule-based"@
    }

    /// What follows once the embedding service has been asked (or not):
    /// when the pattern intent is not trusted or model texts are wanted, and
    /// a model is attached, the model is asked to classify the query, or
    /// for a text for the pattern intent; otherwise the pattern-based
    /// answer.
    pub open spec fn after_embeddings(&self, p: HybridProgress, step: HybridStep) -> bool {
        let use_patterns = p.rule_based_result.intent_confidence >= self.threshold();
        if (!use_patterns || self.model_texts()) && self.has_model() {
            if !use_patterns {
                step matches HybridStep::ClassifyWithModel(q) && q == p
            } else {
                step matches HybridStep::GenerateText(q, intent) && {
                    &&& intent == p.rule_based_result.intent
                    &&& q == (HybridProgress {
                        chosen: Some((p.rule_based_result.intent, p.rule_based_result.intent_confidence,
                            NlpResponseSource::Hybrid, HybridMode::PatternIntentModelText)),
                        ..p
                    })
                }
            }
        } else {
            step matches HybridStep::Respond(resp) && Self::pattern_answer(p, resp)
        }
    }

    fn respond_with_patterns(&self, p: HybridProgress) -> (r: NlpResponse)
        ensures
            Self::pattern_answer(p, r),
    {
        let text = self.rule_based.generate_response(&p.rule_based_result);
        let rb = p.rule_based_result;
        NlpResponse {
            query: p.query,
            intent: rb.intent,
            confidence: rb.intent_confidence,
            response_text: text,
            source: NlpResponseSource::RuleBased,
            confidence_level: NlpConfidenceLevel::from_score(rb.intent_confidence),
            is_uncertain: rb.intent_confidence < 400,
            explanation: Some(String::from_str("Intent and response generated using rule-based")),
            processed_query: Some(rb),
        }
    }

    fn continue_after_embeddings(&self, p: HybridProgress) -> (step: HybridStep)
        ensures
            self.after_embeddings(p, step),
    {
        let use_patterns = p.rule_based_result.intent_confidence >= self.rule_based_confidence_threshold;
        if (!use_patterns || self.use_llm_for_responses) && self.bedrock_attached {
            if !use_patterns {
                HybridStep::ClassifyWithModel(p)
            } else {
                let intent = p.rule_based_result.intent;
                let confidence = p.rule_based_result.intent_confidence;
                HybridStep::GenerateText(HybridProgress {
                    chosen: Some((intent, confidence, NlpResponseSource::Hybrid, HybridMode::PatternIntentModelText)),
                    ..p
                }, intent)
            }
        } else {
            HybridStep::Respond(self.respond_with_patterns(p))
        }
    }

    /// Starts answering a query with the pattern-based service: when its
    /// confidence is below the threshold and embeddings are used and
    /// attached, the embedding service is asked first; otherwise see
    /// `after_embeddings`.
    pub fn start(&self, query: &str) -> (r: Result<HybridStep, super::rule_based::NlpError>)
        ensures
            r matches Ok(step) && {
                let (ri, rc) = recognized_intent(self.patterns().intent_table(), lowercase(query@));
                if rc < self.threshold() && self.embedding_intents() && self.has_embeddings() {
                    step matches HybridStep::FindSimilarIntent(p) && self.processed(query@, p)
                        && p.embedding_intent is None && p.chosen is None
                } else {
                    exists|p: HybridProgress| #![trigger self.processed(query@, p)]
                        self.processed(query@, p) && p.embedding_intent is None && p.chosen is None
                            && self.after_embeddings(p, step)
                }
            },
    {
        let rb = match self.rule_based.process_query(query) {
            Ok(pq) => pq,
            Err(e) => {
                return Err(e);
            },
        };
        let progress = HybridProgress {
            query: String::from_str(query),
            rule_based_result: rb,
            embedding_intent: None,
            chosen: None,
        };
        let ghost p = progress;
        if progress.rule_based_result.intent_confidence < self.rule_based_confidence_threshold
            && self.use_embeddings_for_intents && self.embeddings_attached {
            Ok(HybridStep::FindSimilarIntent(progress))
        } else {
            let step = self.continue_after_embeddings(progress);
            assert(self.processed(query@, p));
            Ok(step)
        }
    }

    /// Continues after the embedding service answered (or failed): its
    /// answer is kept, then see `after_embeddings`.
    pub fn after_similar_intent(&self, progress: HybridProgress, found: Option<(FinancialQueryIntent, u32)>) -> (step: HybridStep)
        ensures
            self.after_embeddings(HybridProgress { embedding_intent: found, ..progress }, step),
    {
        self.continue_after_embeddings(HybridProgress { embedding_intent: found, ..progress })
    }

    /// The intent chosen after the model classified the query: the
    /// embedding service's, credited to both, when it answered with a
    /// higher confidence than the model; otherwise the model's.
    pub open spec fn chosen_intent(p: HybridProgress, model: ValidatedLlmResponse) -> (FinancialQueryIntent, u32, NlpResponseSource) {
        match p.embedding_intent {
            Some((ei, ec)) => if ec > model.intent_confidence {
                (ei, ec, NlpResponseSource::Hybrid)
            } else {
                (model.intent, model.intent_confidence, NlpResponseSource::Bedrock)
            },
            None => (model.intent, model.intent_confidence, NlpResponseSource::Bedrock),
        }
    }

    /// The intent chosen after the model classified the query is the more
    /// confident of the embedding service's and the model's: its confidence
    /// is the greater of the two; it is the embedding service's intent,
    /// credited to both sources, exactly when that one is strictly more
    /// confident, and the model's otherwise (also when the embedding service
    /// gave no answer).
    pub proof fn lemma_more_confident_intent_chosen(p: HybridProgress, model: ValidatedLlmResponse)
        ensures
            ({
                let (ci, cc, cs) = Self::chosen_intent(p, model);
                match p.embedding_intent {
                    Some((ei, ec)) => {
                        &&& cc >= ec
                        &&& cc >= model.intent_confidence
                        &&& (cc == ec || cc == model.intent_confidence)
                        &&& (ec > model.intent_confidence ==> ci == ei && cc == ec && cs == NlpResponseSource::Hybrid)
                        &&& (ec <= model.intent_confidence ==> ci == model.intent && cc == model.intent_confidence
                            && cs == NlpResponseSource::Bedrock)
                    },
                    None => ci == model.intent && cc == model.intent_confidence && cs == NlpResponseSource::Bedrock,
                }
            }),
    {
    }

    /// Continues after the model classified the query: with model texts,
    /// the model is asked for a text for the chosen intent (see
    /// `chosen_intent`); otherwise the pattern-based text for that intent.
    pub fn after_model_intent(&self, progress: HybridProgress, model: ValidatedLlmResponse) -> (step: HybridStep)
        ensures
            ({
                let (ci, cc, cs) = Self::chosen_intent(progress, model);
                if self.model_texts() {
                    step matches HybridStep::GenerateText(q, intent) && intent == ci
                        && q == (HybridProgress { chosen: Some((ci, cc, cs, HybridMode::ModelIntentModelText)), ..progress })
                } else {
                    step matches HybridStep::Respond(resp) && {
                        &&& resp.query == progress.query
                        &&& resp.intent == ci
                        &&& resp.confidence == cc
                        &&& resp.processed_query == Some(progress.rule_based_result)
                        &&& resp.response_text@ == canned_response(ci, progress.query@)
                        &&& resp.source == cs
                        &&& resp.confidence_level == confidence_band(cc)
                        &&& resp.is_uncertain == (cc < 400)
                        &&& resp.explanation is Some
                        &&& resp.explanation->0@ == pattern_text_explanation(cs)
                    }
                }
            }),
    {
        let (ci, cc, cs) = match progress.embedding_intent {
            Some((ei, ec)) => if ec > model.intent_confidence {
                (ei, ec, NlpResponseSource::Hybrid)
            } else {
                (model.intent, model.intent_confidence, NlpResponseSource::Bedrock)
            },
            None => (model.intent, model.intent_confidence, NlpResponseSource::Bedrock),
        };
        if self.use_llm_for_responses {
            HybridStep::GenerateText(HybridProgress { chosen: Some((ci, cc, cs, HybridMode::ModelIntentModelText)), ..progress }, ci)
        } else {
            let query_copy = progress.query.clone();
            let processed = ProcessedQuery {
                original_text: progress.query.clone(),
                intent: ci,
                intent_confidence: cc,
                entities: Vec::new(),
                normalized_text: query_copy,
            };
            let text = self.rule_based.generate_response(&processed);
            let mut explanation = String::from_str("Response generated using rule-based with intent from ");
            explanation.append(match cs {
                NlpResponseSource::RuleBased => "RuleBased",
                NlpResponseSource::Bedrock => "Bedrock",
                NlpResponseSource::Hybrid => "Hybrid",
                NlpResponseSource::Reasoning => "Reasoning",
            });
            HybridStep::Respond(NlpResponse {
                query: progress.query,
                intent: ci,
                confidence: cc,
                processed_query: Some(progress.rule_based_result),
                response_text: text,
                source: cs,
                confidence_level: NlpConfidenceLevel::from_score(cc),
                is_uncertain: cc < 400,
                explanation: Some(explanation),
            })
        }
    }

    /// The answer once the model wrote the text: the chosen intent with the
    /// model's text, explained by how it was produced.
    pub fn after_model_text(&self, progress: HybridProgress, text: String) -> (r: NlpResponse)
        requires
            progress.chosen is Some,
        ensures
            ({
                let (ci, cc, cs, mode) = progress.chosen->0;
                &&& r.query == progress.query
                &&& r.intent == ci
                &&& r.confidence == cc
                &&& r.processed_query == Some(progress.rule_based_result)
                &&& r.response_text == text
                &&& r.source == cs
                &&& r.confidence_level == confidence_band(cc)
                &&& r.is_uncertain == (cc < 400)
                &&& r.explanation is Some
                &&& r.explanation->0@ == match mode {
                    HybridMode::PatternIntentModelText => "Intent recognized using rule-based, response generated using LLM"@,
                    HybridMode::ModelIntentModelText => "Response generated using LLM with intent: "@ + ci.spec_name(),
                }
            }),
    {
        let (ci, cc, cs, mode) = match progress.chosen {
            Some(c) => c,
            None => {
                proof {
                    assert(false);
                }
                (FinancialQueryIntent::Unknown, 0, NlpResponseSource::RuleBased, HybridMode::PatternIntentModelText)
            },
        };
        let explanation = match mode {
            HybridMode::PatternIntentModelText => String::from_str("Intent recognized using rule-based, response generated using LLM"),
            HybridMode::ModelIntentModelText => {
                let mut e = String::from_str("Response generated using LLM with intent: ");
                e.append(ci.name());
                e
            },
        };
        NlpResponse {
            query: progress.query,
            intent: ci,
            confidence: cc,
            processed_query: Some(progress.rule_based_result),
            response_text: text,
            source: cs,
            confidence_level: NlpConfidenceLevel::from_score(cc),
            is_uncertain: cc < 400,
            explanation: Some(explanation),
        }
    }

    /// An answer is written again with the client's data by the model only
    /// when a model is attached, and a pattern-based answer only when model
    /// texts are wanted.
    pub open spec fn rewrites_with_client_data(&self, r: NlpResponse) -> bool {
        self.has_model() && !(r.source == NlpResponseSource::RuleBased && !self.model_texts())
    }

    /// Whether the model is to write the answer again with the client's
    /// data (see `rewrites_with_client_data`); when it is, the caller asks
    /// the model for a text for the answer's processed query and passes it
    /// to `with_client_data_text`.
    pub fn needs_client_data_text(&self, response: &NlpResponse) -> (b: bool)
        ensures
            b == self.rewrites_with_client_data(*response),
    {
        self.bedrock_attached && !(response.source == NlpResponseSource::RuleBased && !self.use_llm_for_responses)
    }

    /// The answer with the text the model wrote with the client's data,
    /// credited to both sources.
    pub fn with_client_data_text(response: NlpResponse, text: String) -> (r: NlpResponse)
        ensures
            r == (NlpResponse { response_text: text, source: NlpResponseSource::Hybrid, ..response }),
    {
        NlpResponse { response_text: text, source: NlpResponseSource::Hybrid, ..response }
    }
}

} // verus!
