//! Query processing that combines the pattern-based service, a language
//! model, knowledge retrieval and the conversation's context.

use vstd::prelude::*;
use std::sync::Arc;
use crate::text::{to_lowercase, lowercase};
use super::rule_based::{FinancialNlpService, ProcessedQuery, FinancialQueryIntent, ExtractedEntity,
    recognized_intent, table_entities};
use super::types::{NlpResponse, NlpResponseSource, NlpConfidenceLevel, confidence_band};
use super::bedrock::{process_query as model_answer, fixed2, format_fixed2};
use super::knowledge_retriever::{KnowledgeRetriever, KnowledgeItem, intent_items, deref_items, keyword_matches,
    combined_items, combine_items};
use super::conversation_manager::{ConversationManager, ConversationTurn, ConversationState, ConversationGoal,
    RequiredInformation, ConversationError, push_bounded};

verus! {

/// Configuration of the enhanced hybrid service.
#[derive(Debug, Clone, Copy)]
pub struct EnhancedHybridConfig {
    /// Pattern confidence (thousandths) from which the pattern-based answer
    /// is used directly
    pub rule_based_confidence_threshold: u32,
    /// Whether to use the language model for response generation even when
    /// pattern-based intent recognition is used
    pub use_llm_for_responses: bool,
    /// Whether to use embeddings for intent recognition
    pub use_embeddings_for_intents: bool,
    /// Whether to use conversation context
    pub use_conversation_context: bool,
    /// Whether to use knowledge retrieval
    pub use_knowledge_retrieval: bool,
    /// Maximum conversation turns to include in context
    pub max_context_turns: usize,
    /// Maximum knowledge items to include in context
    pub max_knowledge_items: usize,
}

impl Default for EnhancedHybridConfig {
    fn default() -> (c: Self)
        ensures
            c.rule_based_confidence_threshold == 700,
            c.use_llm_for_responses,
            c.use_embeddings_for_intents,
            c.use_conversation_context,
            c.use_knowledge_retrieval,
            c.max_context_turns == 5,
            c.max_knowledge_items == 3,
    {
        EnhancedHybridConfig {
            rule_based_confidence_threshold: 700,
            use_llm_for_responses: true,
            use_embeddings_for_intents: true,
            use_conversation_context: true,
            use_knowledge_retrieval: true,
            max_context_turns: 5,
            max_knowledge_items: 3,
        }
    }
}

/// The pattern-based answer text for an intent.
pub open spec fn rule_text(query: Seq<char>, intent: FinancialQueryIntent) -> Seq<char> {
    if intent == FinancialQueryIntent::Greeting {
        "Hello! How can I help with your financial questions today?"@
    } else if intent == FinancialQueryIntent::PortfolioPerformance {
        "I'll analyze your portfolio performance for query: "@ + query
    } else if intent == FinancialQueryIntent::AssetAllocation {
        "Let me check your current asset allocation for query: "@ + query
    } else if intent == FinancialQueryIntent::RetirementPlanning {
        "I'll help with your retirement planning for query: "@ + query
    } else if intent == FinancialQueryIntent::TaxOptimization {
        "Let me suggest some tax optimization strategies for query: "@ + query
    } else if intent == FinancialQueryIntent::GoalProgress {
        "I'll check your progress towards financial goals for query: "@ + query
    } else if intent == FinancialQueryIntent::Unknown {
        "I'm not sure I understand your question. Could you rephrase it?"@
    } else {
        "I understand you're asking about "@ + intent.spec_name() + ". Let me help with that."@
    }
}

/// The pattern-based answer text for an intent (see `rule_text`).
pub fn generate_rule_based_response(query: &str, intent: &FinancialQueryIntent) -> (s: String)
    ensures
        s@ == rule_text(query@, *intent),
{
    let intent = *intent;
    if intent == FinancialQueryIntent::Greeting {
        String::from_str("Hello! How can I help with your financial questions today?")
    } else if intent == FinancialQueryIntent::PortfolioPerformance {
        let mut s = String::from_str("I'll analyze your portfolio performance for query: ");
        s.append(query);
        s
    } else if intent == FinancialQueryIntent::AssetAllocation {
        let mut s = String::from_str("Let me check your current asset allocation for query: ");
        s.append(query);
        s
    } else if intent == FinancialQueryIntent::RetirementPlanning {
        let mut s = String::from_str("I'll help with your retirement planning for query: ");
        s.append(query);
        s
    } else if intent == FinancialQueryIntent::TaxOptimization {
        let mut s = String::from_str("Let me suggest some tax optimization strategies for query: ");
        s.append(query);
        s
    } else if intent == FinancialQueryIntent::GoalProgress {
        let mut s = String::from_str("I'll check your progress towards financial goals for query: ");
        s.append(query);
        s
    } else if intent == FinancialQueryIntent::Unknown {
        String::from_str("I'm not sure I understand your question. Could you rephrase it?")
    } else {
        let mut s = String::from_str("I understand you're asking about ");
        s.append(intent.name());
        s.append(". Let me help with that.");
        s
    }
}

/// The state a conversation moves to after a query with the intent:
/// information gathering for performance, allocation and risk; goal
/// planning for retirement, education and home purchase; recommendation for
/// investment advice and tax optimization; explanation for education and
/// market information; otherwise the state stays.
pub open spec fn state_after(intent: FinancialQueryIntent, current: ConversationState) -> ConversationState {
    if intent == FinancialQueryIntent::PortfolioPerformance || intent == FinancialQueryIntent::AssetAllocation
        || intent == FinancialQueryIntent::RiskAssessment {
        ConversationState::InformationGathering
    } else if intent == FinancialQueryIntent::RetirementPlanning || intent == FinancialQueryIntent::EducationPlanning
        || intent == FinancialQueryIntent::HomePurchase {
        ConversationState::GoalPlanning
    } else if intent == FinancialQueryIntent::InvestmentRecommendation || intent == FinancialQueryIntent::TaxOptimization {
        ConversationState::Recommendation
    } else if intent == FinancialQueryIntent::FinancialEducation || intent == FinancialQueryIntent::MarketInformation {
        ConversationState::Explanation
    } else {
        current
    }
}

/// Moves the conversation to the state the intent calls for (see
/// `state_after`).
pub fn update_conversation_state(conversation_manager: &mut ConversationManager, intent: &FinancialQueryIntent)
    requires
        old(conversation_manager).wf(),
    ensures
        final(conversation_manager).wf(),
        final(conversation_manager).state_view() == state_after(*intent, old(conversation_manager).state_view()),
        final(conversation_manager).history_view() == old(conversation_manager).history_view(),
        final(conversation_manager).goals_view() == old(conversation_manager).goals_view(),
        final(conversation_manager).id_view() == old(conversation_manager).id_view(),
        final(conversation_manager).client_id_view() == old(conversation_manager).client_id_view(),
{
    let intent = *intent;
    let new_state = if intent == FinancialQueryIntent::PortfolioPerformance || intent == FinancialQueryIntent::AssetAllocation
        || intent == FinancialQueryIntent::RiskAssessment {
        ConversationState::InformationGathering
    } else if intent == FinancialQueryIntent::RetirementPlanning || intent == FinancialQueryIntent::EducationPlanning
        || intent == FinancialQueryIntent::HomePurchase {
        ConversationState::GoalPlanning
    } else if intent == FinancialQueryIntent::InvestmentRecommendation || intent == FinancialQueryIntent::TaxOptimization {
        ConversationState::Recommendation
    } else if intent == FinancialQueryIntent::FinancialEducation || intent == FinancialQueryIntent::MarketInformation {
        ConversationState::Explanation
    } else {
        *conversation_manager.get_state()
    };
    conversation_manager.set_state(new_state);
}

/// The context lines of one turn: the query, and the answer with its
/// intent and confidence where there is one.
pub open spec fn turn_context(t: ConversationTurn) -> Seq<char> {
    let user = "User: "@ + t.query@ + "\n"@;
    let with_answer = match t.response {
        Some(r) => user + "System: "@ + r.response_text@ + "\n"@ + "(Intent: "@ + r.intent.spec_name() + ", Confidence: "@
            + fixed2(r.confidence) + ")\n"@,
        None => user,
    };
    with_answer + "\n"@
}

/// The context lines of a list of turns.
pub open spec fn turns_context(turns: Seq<ConversationTurn>) -> Seq<char>
    decreases turns.len(),
{
    if turns.len() == 0 {
        Seq::empty()
    } else {
        turns_context(turns.drop_last()) + turn_context(turns.last())
    }
}

/// How a piece of required information stands.
pub open spec fn info_status(info: RequiredInformation) -> Seq<char> {
    if info.is_collected {
        "Collected: "@ + match info.value {
            Some(v) => v@,
            None => Seq::empty(),
        }
    } else if info.is_required {
        "Required but not collected"@
    } else {
        "Optional and not collected"@
    }
}

/// The context lines of a goal's required information.
pub open spec fn infos_context(infos: Seq<RequiredInformation>) -> Seq<char>
    decreases infos.len(),
{
    if infos.len() == 0 {
        Seq::empty()
    } else {
        infos_context(infos.drop_last()) + "  * "@ + infos.last().info_type@ + ": "@ + info_status(infos.last()) + "\n"@
    }
}

/// The context lines of a list of goals.
pub open spec fn goals_context(goals: Seq<ConversationGoal>) -> Seq<char>
    decreases goals.len(),
{
    if goals.len() == 0 {
        Seq::empty()
    } else {
        let g = goals.last();
        goals_context(goals.drop_last()) + "- "@ + g.goal_type.spec_name() + " (Status: "@ + g.status.spec_name() + ")\n"@
            + infos_context(g.required_information@)
    }
}

/// The last `n` turns of a history (all of it when shorter).
pub open spec fn last_turns(h: Seq<ConversationTurn>, n: nat) -> Seq<ConversationTurn> {
    if h.len() > n { h.subrange(h.len() - n, h.len() as int) } else { h }
}

/// The conversation context given to a language model: the state, the
/// last `max_turns` turns where there are any, and the goals where there
/// are any.
pub open spec fn conversation_context(
    state: ConversationState,
    history: Seq<ConversationTurn>,
    goals: Seq<ConversationGoal>,
    max_turns: nat,
) -> Seq<char> {
    let head = "Current conversation state: "@ + state.spec_name() + "\n\n"@;
    let recent = last_turns(history, max_turns);
    let with_turns = if recent.len() > 0 {
        head + "Recent conversation history:\n"@ + turns_context(recent)
    } else {
        head
    };
    if goals.len() > 0 {
        with_turns + "Active goals:\n"@ + goals_context(goals) + "\n"@
    } else {
        with_turns
    }
}

/// The knowledge context given to a language model: one block per item.
pub open spec fn knowledge_blocks(items: Seq<KnowledgeItem>) -> Seq<char>
    decreases items.len(),
{
    if items.len() == 0 {
        Seq::empty()
    } else {
        knowledge_blocks(items.drop_last()) + "--- "@ + items.last().title@ + " ---\n"@ + items.last().content@ + "\n\n"@
    }
}

/// `text` is the knowledge context a retriever gives for the query and
/// intent: its keyword matches completed from its items for the intent, at
/// most `max` of them, one block each.
pub open spec fn knowledge_context_from(kr: KnowledgeRetriever, query: Seq<char>, intent: FinancialQueryIntent, max: nat, text: Seq<char>) -> bool {
    exists|found: Seq<KnowledgeItem>|
        #![trigger keyword_matches(kr.items_view(), kr.config_view().max_items, query, found)]
        keyword_matches(kr.items_view(), kr.config_view().max_items, query, found)
            && text == knowledge_blocks(combined_items(found, intent_items(kr.items_view(), intent), max))
}

/// The prompt for a language model: instructions, then the knowledge,
/// client and conversation contexts where not empty, then the query.
pub open spec fn llm_prompt(
    query: Seq<char>,
    conversation: Option<Seq<char>>,
    knowledge: Seq<char>,
    client: Option<Seq<char>>,
) -> Seq<char> {
    let p1 = "You are a helpful financial advisor assistant. Answer the user's question based on the following context.\n\n"@;
    let p2 = if knowledge.len() > 0 { p1 + "Knowledge Context:\n"@ + knowledge + "\n\n"@ } else { p1 };
    let p3 = match client {
        Some(c) => p2 + "Client Context:\n"@ + c + "\n\n"@,
        None => p2,
    };
    let p4 = match conversation {
        Some(c) => if c.len() > 0 { p3 + "Conversation History:\n"@ + c + "\n\n"@ } else { p3 },
        None => p3,
    };
    p4 + "User Query: "@ + query + "\n\n"@
}

/// Builds the prompt for a language model (see `llm_prompt`).
pub fn build_llm_prompt(query: &str, conversation_context: Option<&str>, knowledge_context: &str, client_context: Option<&str>) -> (p: String)
    ensures
        p@ == llm_prompt(query@, match conversation_context {
            Some(c) => Some(c@),
            None => None,
        }, knowledge_context@, match client_context {
            Some(c) => Some(c@),
            None => None,
        }),
{
    let mut prompt = String::from_str(
        "You are a helpful financial advisor assistant. Answer the user's question based on the following context.\n\n",
    );
    if !knowledge_context.is_empty() {
        prompt.append("Knowledge Context:\n");
        prompt.append(knowledge_context);
        prompt.append("\n\n");
    }
    match client_context {
        Some(c) => {
            prompt.append("Client Context:\n");
            prompt.append(c);
            prompt.append("\n\n");
        },
        None => {},
    }
    match conversation_context {
        Some(c) => {
            if !c.is_empty() {
                prompt.append("Conversation History:\n");
                prompt.append(c);
                prompt.append("\n\n");
            }
        },
        None => {},
    }
    prompt.append("User Query: ");
    prompt.append(query);
    prompt.append("\n\n");
    prompt
}

fn append_infos(s: &mut String, infos: &Vec<RequiredInformation>)
    ensures
        final(s)@ == old(s)@ + infos_context(infos@),
{
    let ghost base = s@;
    let mut i: usize = 0;
    while i < infos.len()
        invariant
            i <= infos@.len(),
            s@ == base + infos_context(infos@.subrange(0, i as int)),
        decreases infos@.len() - i,
    {
        let info = &infos[i];
        s.append("  * ");
        s.append(info.info_type.as_str());
        s.append(": ");
        if info.is_collected {
            s.append("Collected: ");
            match &info.value {
                Some(v) => s.append(v.as_str()),
                None => {},
            }
        } else if info.is_required {
            s.append("Required but not collected");
        } else {
            s.append("Optional and not collected");
        }
        s.append("\n");
        assert(infos@.subrange(0, i + 1).drop_last() =~= infos@.subrange(0, i as int));
        i = i + 1;
    }
    assert(infos@.subrange(0, infos@.len() as int) =~= infos@);
}

fn append_turn(s: &mut String, turn: &ConversationTurn)
    ensures
        final(s)@ == old(s)@ + turn_context(*turn),
{
    s.append("User: ");
    s.append(turn.query.as_str());
    s.append("\n");
    match &turn.response {
        Some(r) => {
            s.append("System: ");
            s.append(r.response_text.as_str());
            s.append("\n");
            s.append("(Intent: ");
            s.append(r.intent.name());
            s.append(", Confidence: ");
            let c = format_fixed2(r.confidence);
            s.append(c.as_str());
            s.append(")\n");
        },
        None => {},
    }
    s.append("\n");
}

/// Combines the pattern-based service with a language model, knowledge
/// retrieval and conversation context.
#[derive(Debug)]
pub struct EnhancedHybridService {
    rule_based: FinancialNlpService,
    bedrock_attached: bool,
    embeddings_attached: bool,
    knowledge_retriever: Option<Arc<KnowledgeRetriever>>,
    config: EnhancedHybridConfig,
}

impl EnhancedHybridService {
    /// The pattern-based service.
    pub closed spec fn patterns(&self) -> FinancialNlpService {
        self.rule_based
    }

    /// Whether a language-model client is attached.
    pub closed spec fn has_model(&self) -> bool {
        self.bedrock_attached
    }

    /// Whether an embedding service is attached.
    pub closed spec fn has_embeddings(&self) -> bool {
        self.embeddings_attached
    }

    /// The retriever attached, if any.
    pub closed spec fn retriever_view(&self) -> Option<KnowledgeRetriever> {
        match self.knowledge_retriever {
            Some(r) => Some(*r),
            None => None,
        }
    }

    /// The configuration.
    pub closed spec fn config_view(&self) -> EnhancedHybridConfig {
        self.config
    }

    /// A service with the default patterns and configuration and nothing
    /// attached.
    pub fn new_rule_based_only() -> (s: Self)
        ensures
            !s.has_model(),
            !s.has_embeddings(),
            s.retriever_view() is None,
            s.config_view().rule_based_confidence_threshold == 700,
            s.config_view().use_llm_for_responses,
            s.config_view().use_embeddings_for_intents,
            s.config_view().use_conversation_context,
            s.config_view().use_knowledge_retrieval,
            s.config_view().max_context_turns == 5,
            s.config_view().max_knowledge_items == 3,
            s.patterns().intent_table().map_values(|g: super::rule_based::IntentPatterns| g.intent)
                == FinancialNlpService::default_intent_order(),
            s.patterns().entity_table().map_values(|g: super::rule_based::EntityPatterns| g.entity_type)
                == FinancialNlpService::default_entity_order(),
            super::rule_based::intent_pattern_views(s.patterns().intent_table()) == FinancialNlpService::default_intent_patterns(),
            super::rule_based::entity_pattern_views(s.patterns().entity_table()) == FinancialNlpService::default_entity_patterns(),
            forall|i: int| 0 <= i < s.patterns().intent_table().len()
                ==> #[trigger] s.patterns().intent_table()[i].patterns@.len() > 0,
            forall|i: int| 0 <= i < s.patterns().entity_table().len()
                ==> #[trigger] s.patterns().entity_table()[i].patterns@.len() > 0,
    {
        Self {
            rule_based: FinancialNlpService::new(),
            bedrock_attached: false,
            embeddings_attached: false,
            knowledge_retriever: None,
            config: EnhancedHybridConfig::default(),
        }
    }

    /// A service with a language-model client attached.
    pub fn new_with_bedrock() -> (s: Self)
        ensures
            s.has_model(),
            s.retriever_view() is None,
            s.config_view().rule_based_confidence_threshold == 700,
    {
        Self {
            rule_based: FinancialNlpService::new(),
            bedrock_attached: true,
            embeddings_attached: false,
            knowledge_retriever: None,
            config: EnhancedHybridConfig::default(),
        }
    }

    /// A service with a language-model client and an embedding service
    /// attached.
    pub fn new_with_embeddings() -> (s: Self)
        ensures
            s.has_model(),
            s.retriever_view() is None,
            s.config_view().rule_based_confidence_threshold == 700,
    {
        Self {
            rule_based: FinancialNlpService::new(),
            bedrock_attached: true,
            embeddings_attached: true,
            knowledge_retriever: None,
            config: EnhancedHybridConfig::default(),
        }
    }

    /// The service with a knowledge retriever attached.
    pub fn with_knowledge_retriever(self, retriever: Arc<KnowledgeRetriever>) -> (s: Self)
        ensures
            s.retriever_view() == Some(*retriever),
            s.has_model() == self.has_model(),
            s.config_view() == self.config_view(),
            s.patterns() == self.patterns(),
    {
        Self { knowledge_retriever: Some(retriever), ..self }
    }

    /// The service with another configuration.
    pub fn with_config(self, config: EnhancedHybridConfig) -> (s: Self)
        ensures
            s.config_view() == config,
            s.has_model() == self.has_model(),
            s.retriever_view() == self.retriever_view(),
            s.patterns() == self.patterns(),
    {
        Self { config, ..self }
    }

    /// The conversation context for a language model (see
    /// `conversation_context`), with at most `max_context_turns` turns.
    pub fn prepare_conversation_context(&self, conversation_manager: &ConversationManager) -> (s: String)
        ensures
            s@ == conversation_context(conversation_manager.state_view(), conversation_manager.history_view(),
                conversation_manager.goals_view(), self.config_view().max_context_turns as nat),
    {
        let mut context = String::from_str("Current conversation state: ");
        context.append(conversation_manager.get_state().name());
        context.append("\n\n");
        let history = conversation_manager.get_history();
        let n = history.len();
        let max_turns = if self.config.max_context_turns < n { self.config.max_context_turns } else { n };
        let ghost recent = last_turns(history@, self.config.max_context_turns as nat);
        if max_turns > 0 {
            context.append("Recent conversation history:\n");
            let ghost base = context@;
            let start = n - max_turns;
            assert(recent =~= history@.subrange(start as int, n as int));
            let mut k: usize = start;
            while k < n
                invariant
                    start <= k <= n,
                    n == history@.len(),
                    recent == history@.subrange(start as int, n as int),
                    context@ == base + turns_context(history@.subrange(start as int, k as int)),
                decreases n - k,
            {
                append_turn(&mut context, &history[k]);
                assert(history@.subrange(start as int, k + 1).drop_last() =~= history@.subrange(start as int, k as int));
                k = k + 1;
            }
        } else {
            assert(recent.len() == 0);
        }
        let goals = conversation_manager.get_active_goals();
        if goals.len() > 0 {
            context.append("Active goals:\n");
            let ghost base = context@;
            let mut g: usize = 0;
            while g < goals.len()
                invariant
                    g <= goals@.len(),
                    context@ == base + goals_context(goals@.subrange(0, g as int)),
                decreases goals@.len() - g,
            {
                let goal = &goals[g];
                context.append("- ");
                context.append(goal.goal_type.name());
                context.append(" (Status: ");
                context.append(goal.status.name());
                context.append(")\n");
                append_infos(&mut context, &goal.required_information);
                assert(goals@.subrange(0, g + 1).drop_last() =~= goals@.subrange(0, g as int));
                g = g + 1;
            }
            assert(goals@.subrange(0, goals@.len() as int) =~= goals@);
            context.append("\n");
        }
        context
    }

    /// What the service answers to a query: the pattern-based answer when
    /// its confidence reaches the threshold or no model is attached,
    /// otherwise the model's answer with the pattern-based entities.
    pub open spec fn enhanced_answer(&self, query: Seq<char>, resp: NlpResponse) -> bool {
        let (ri, rc) = recognized_intent(self.patterns().intent_table(), lowercase(query));
        let entities = table_entities(self.patterns().entity_table(), query, 0);
        &&& resp.query@ == query
        &&& resp.processed_query is Some
        &&& resp.processed_query->0.original_text@ == query
        &&& resp.processed_query->0.normalized_text@ == lowercase(query)
        &&& resp.processed_query->0.entities@.map_values(|e: ExtractedEntity| e.view_tuple()) == entities
        &&& if rc >= self.config_view().rule_based_confidence_threshold || !self.has_model() {
            &&& resp.intent == ri
            &&& resp.confidence == rc
            &&& resp.processed_query->0.intent == ri
            &&& resp.processed_query->0.intent_confidence == rc
            &&& resp.response_text@ == rule_text(query, ri)
            &&& resp.source == NlpResponseSource::RuleBased
            &&& resp.confidence_level == confidence_band(rc)
            &&& resp.is_uncertain == (rc < 400)
            &&& resp.explanation is Some
            &&& resp.explanation->0@ == "Intent and response generated using rule-based"@
        } else {
            &&& resp.intent == FinancialQueryIntent::PortfolioPerformance
            &&& resp.confidence == 850
            &&& resp.processed_query->0.intent == FinancialQueryIntent::PortfolioPerformance
            &&& resp.processed_query->0.intent_confidence == 850
            &&& resp.response_text@ == "Your portfolio is up 5% this year."@
            &&& resp.source == NlpResponseSource::Bedrock
            &&& resp.confidence_level == confidence_band(850)
            &&& !resp.is_uncertain
            &&& resp.explanation is None
        }
    }

    /// The knowledge context for a query and intent: the retriever's
    /// keyword matches completed from its items for the intent, at most
    /// `max_knowledge_items`, one block each; empty without a retriever.
    pub fn retrieve_knowledge_context(&self, query: &str, intent: FinancialQueryIntent) -> (s: String)
        ensures
            match self.retriever_view() {
                None => s@ == Seq::<char>::empty(),
                Some(kr) => knowledge_context_from(kr, query@, intent, self.config_view().max_knowledge_items as nat, s@),
            },
    {
        match &self.knowledge_retriever {
            None => String::new(),
            Some(retriever) => {
                let found = retriever.retrieve_by_query(query);
                let ghost found_items = deref_items(found@);
                let by_intent = retriever.retrieve_by_intent(&intent);
                assert(deref_items(by_intent@) =~= intent_items(retriever.items_view(), intent));
                let all = combine_items(found, by_intent, self.config.max_knowledge_items);
                let mut context = String::new();
                let mut k: usize = 0;
                while k < all.len()
                    invariant
                        k <= all@.len(),
                        context@ == knowledge_blocks(deref_items(all@).subrange(0, k as int)),
                    decreases all@.len() - k,
                {
                    context.append("--- ");
                    context.append(all[k].title.as_str());
                    context.append(" ---\n");
                    context.append(all[k].content.as_str());
                    context.append("\n\n");
                    assert(deref_items(all@).subrange(0, k + 1).drop_last() =~= deref_items(all@).subrange(0, k as int));
                    k = k + 1;
                }
                assert(deref_items(all@).subrange(0, all@.len() as int) =~= deref_items(all@));
                assert(keyword_matches(retriever.items_view(), retriever.config_view().max_items, query@, found_items));
                assert(context@ == knowledge_blocks(combined_items(found_items, intent_items(retriever.items_view(), intent),
                    self.config.max_knowledge_items as nat)));
                assert(knowledge_context_from(**retriever, query@, intent, self.config.max_knowledge_items as nat, context@));
                context
            },
        }
    }

    /// Answers a query (see `enhanced_answer`). With a model attached and a
    /// pattern confidence below the threshold, the conversation, knowledge
    /// and client contexts are prepared for the model first.
    pub fn process_query(&self, query: &str, conversation_manager: Option<&ConversationManager>, client_context: Option<&str>) -> (r: Result<NlpResponse, super::rule_based::NlpError>)
        ensures
            r matches Ok(resp) && self.enhanced_answer(query@, resp),
    {
        let rule_based_result = match self.rule_based.process_query(query) {
            Ok(pq) => pq,
            Err(e) => {
                return Err(e);
            },
        };
        let rule_based_intent = rule_based_result.intent;
        let rule_based_confidence = rule_based_result.intent_confidence;
        if rule_based_confidence >= self.config.rule_based_confidence_threshold || !self.bedrock_attached {
            let text = generate_rule_based_response(query, &rule_based_intent);
            return Ok(NlpResponse {
                query: String::from_str(query),
                intent: rule_based_intent,
                confidence: rule_based_confidence,
                processed_query: Some(rule_based_result),
                response_text: text,
                source: NlpResponseSource::RuleBased,
                confidence_level: NlpConfidenceLevel::from_score(rule_based_confidence),
                is_uncertain: rule_based_confidence < 400,
                explanation: Some(String::from_str("Intent and response generated using rule-based")),
            });
        }
        let conversation_context = match conversation_manager {
            Some(cm) => Some(self.prepare_conversation_context(cm)),
            None => None,
        };
        let knowledge_context = self.retrieve_knowledge_context(query, rule_based_intent);
        let _prompt = build_llm_prompt(query, match &conversation_context {
            Some(c) => Some(c.as_str()),
            None => None,
        }, knowledge_context.as_str(), client_context);
        let llm_result = model_answer(query);
        let processed_query = ProcessedQuery {
            original_text: String::from_str(query),
            intent: llm_result.intent,
            intent_confidence: llm_result.intent_confidence,
            entities: rule_based_result.entities,
            normalized_text: to_lowercase(query),
        };
        let text = match llm_result.response_text {
            Some(t) => t,
            None => generate_rule_based_response(query, &processed_query.intent),
        };
        Ok(NlpResponse {
            query: String::from_str(query),
            intent: llm_result.intent,
            confidence: llm_result.intent_confidence,
            processed_query: Some(processed_query),
            response_text: text,
            source: NlpResponseSource::Bedrock,
            confidence_level: NlpConfidenceLevel::from_score(llm_result.intent_confidence),
            is_uncertain: llm_result.is_uncertain,
            explanation: llm_result.explanation,
        })
    }

    /// Answers the latest query of a conversation: records the processed
    /// query (with no entities) and the answer in the latest turn, moves the
    /// conversation to the state the answer's intent calls for, and returns
    /// the turn. Fails when the conversation has no turn.
    pub fn process_conversation_turn<'a>(&self, conversation_manager: &'a mut ConversationManager, client_context: Option<&str>) -> (r: Result<&'a ConversationTurn, ConversationError>)
        requires
            old(conversation_manager).wf(),
        ensures
            final(conversation_manager).wf(),
            old(conversation_manager).history_view().len() == 0 ==> r == Err::<&ConversationTurn, ConversationError>(ConversationError::NoTurns)
                && *final(conversation_manager) == *old(conversation_manager),
            old(conversation_manager).history_view().len() > 0 ==> (r matches Ok(t) && {
                let before = old(conversation_manager).history_view().last();
                &&& final(conversation_manager).history_view().len() == old(conversation_manager).history_view().len()
                &&& final(conversation_manager).history_view().drop_last() == old(conversation_manager).history_view().drop_last()
                &&& *t == final(conversation_manager).history_view().last()
                &&& t.query == before.query
                &&& t.id == before.id
                &&& t.response matches Some(resp) && self.enhanced_answer(before.query@, resp)
                &&& t.processed_query matches Some(pq) && {
                    &&& pq.original_text@ == before.query@
                    &&& pq.intent == t.response->0.intent
                    &&& pq.intent_confidence == t.response->0.confidence
                    &&& pq.entities@.len() == 0
                    &&& pq.normalized_text@ == lowercase(before.query@)
                }
                &&& final(conversation_manager).state_view() == state_after(t.response->0.intent, old(conversation_manager).state_view())
                &&& final(conversation_manager).goals_view() == old(conversation_manager).goals_view()
            }),
    {
        let query = match conversation_manager.get_most_recent_query() {
            Some(q) => String::from_str(q),
            None => {
                return Err(ConversationError::NoTurns);
            },
        };
        let response = match self.process_query(query.as_str(), Some(&*conversation_manager), client_context) {
            Ok(resp) => resp,
            Err(_) => {
                return Err(ConversationError::NoTurns);
            },
        };
        let intent = response.intent;
        let processed_query = ProcessedQuery {
            original_text: query.clone(),
            intent: response.intent,
            intent_confidence: response.confidence,
            entities: Vec::new(),
            normalized_text: to_lowercase(query.as_str()),
        };
        let ghost h0 = conversation_manager.history_view();
        let _ = conversation_manager.update_current_turn_with_processed_query(processed_query);
        let _ = conversation_manager.update_current_turn_with_response(response);
        update_conversation_state(conversation_manager, &intent);
        let history = conversation_manager.get_history();
        let n = history.len();
        assert(conversation_manager.history_view().drop_last() =~= h0.drop_last());
        Ok(&history[n - 1])
    }
}

} // verus!
