//! Financial reasoning: chains of reasoning steps, scenarios and
//! recommendations built for a query.

use vstd::prelude::*;
use std::sync::Arc;
use crate::clock::{Timestamp, now};
use crate::string_map::{StringMap, stored, lookup};
use crate::text::{decimal, to_decimal, signed_decimal, to_decimal_signed};
use super::rule_based::FinancialQueryIntent;
use super::knowledge_retriever::{KnowledgeRetriever, KnowledgeItem, intent_items, refers_to, keyword_scores, deref_items, keyword_matches, combined_items, combine_items};
use super::types::{NlpResponse, NlpResponseSource, NlpConfidenceLevel, confidence_band};
use crate::ranking::is_top_positive;
use crate::text::{words, lowercase};

verus! {

/// Financial reasoning step type.
#[derive(Debug, Clone, Copy, PartialEq, Eq, Structural)]
pub enum ReasoningStepType {
    /// Information gathering
    InformationGathering,
    /// Goal identification
    GoalIdentification,
    /// Risk assessment
    RiskAssessment,
    /// Scenario analysis
    ScenarioAnalysis,
    /// Recommendation generation
    RecommendationGeneration,
    /// Explanation
    Explanation,
}

impl ReasoningStepType {
    /// The step type's name, as it is displayed.
    pub open spec fn spec_name(self) -> Seq<char> {
        match self {
            ReasoningStepType::InformationGathering => "InformationGathering"@,
            ReasoningStepType::GoalIdentification => "GoalIdentification"@,
            ReasoningStepType::RiskAssessment => "RiskAssessment"@,
            ReasoningStepType::ScenarioAnalysis => "ScenarioAnalysis"@,
            ReasoningStepType::RecommendationGeneration => "RecommendationGeneration"@,
            ReasoningStepType::Explanation => "Explanation"@,
        }
    }

    /// The step type's name, as it is displayed.
    pub fn name(&self) -> (s: &'static str)
        ensures
            s@ == self.spec_name(),
    {
        match self {
            ReasoningStepType::InformationGathering => "InformationGathering",
            ReasoningStepType::GoalIdentification => "GoalIdentification",
            ReasoningStepType::RiskAssessment => "RiskAssessment",
            ReasoningStepType::ScenarioAnalysis => "ScenarioAnalysis",
            ReasoningStepType::RecommendationGeneration => "RecommendationGeneration",
            ReasoningStepType::Explanation => "Explanation",
        }
    }
}

/// A step of financial reasoning.
#[derive(Debug, Clone)]
pub struct ReasoningStep {
    /// Step type
    pub step_type: ReasoningStepType,
    /// Step description
    pub description: String,
    /// Input data
    pub input: StringMap,
    /// Output data
    pub output: StringMap,
    /// Timestamp
    pub timestamp: Timestamp,
}

impl ReasoningStep {
    /// Both maps of the step are well formed.
    pub open spec fn wf(&self) -> bool {
        self.input.wf() && self.output.wf()
    }

    /// A new step with no input and no output.
    pub fn new(step_type: ReasoningStepType, description: &str) -> (s: Self)
        ensures
            s.wf(),
            s.step_type == step_type,
            s.description@ == description@,
            s.input@ == Seq::<(Seq<char>, Seq<char>)>::empty(),
            s.output@ == Seq::<(Seq<char>, Seq<char>)>::empty(),
    {
        Self {
            step_type,
            description: String::from_str(description),
            input: StringMap::new(),
            output: StringMap::new(),
            timestamp: now(),
        }
    }

    /// Records an input value under a key, replacing any earlier one.
    pub fn add_input(&mut self, key: &str, value: &str)
        requires
            old(self).wf(),
        ensures
            final(self).wf(),
            final(self).input@ == stored(old(self).input@, key@, value@),
            final(self).output@ == old(self).output@,
            final(self).step_type == old(self).step_type,
            final(self).description == old(self).description,
    {
        self.input.insert(key, value);
    }

    /// Records an output value under a key, replacing any earlier one.
    pub fn add_output(&mut self, key: &str, value: &str)
        requires
            old(self).wf(),
        ensures
            final(self).wf(),
            final(self).output@ == stored(old(self).output@, key@, value@),
            final(self).input@ == old(self).input@,
            final(self).step_type == old(self).step_type,
            final(self).description == old(self).description,
    {
        self.output.insert(key, value);
    }
}

/// A financial scenario.
#[derive(Debug, Clone)]
pub struct FinancialScenario {
    /// Scenario ID
    pub id: String,
    /// Scenario name
    pub name: String,
    /// Scenario description
    pub description: String,
    /// Scenario parameters
    pub parameters: StringMap,
    /// Scenario outcomes
    pub outcomes: StringMap,
    /// Probability of success, in thousandths
    pub success_probability: Option<u32>,
    /// Created timestamp
    pub created_at: Timestamp,
}

impl FinancialScenario {
    /// Both maps of the scenario are well formed.
    pub open spec fn wf(&self) -> bool {
        self.parameters.wf() && self.outcomes.wf()
    }

    /// A new scenario with no parameters, outcomes or probability.
    pub fn new(id: &str, name: &str, description: &str) -> (s: Self)
        ensures
            s.wf(),
            s.id@ == id@,
            s.name@ == name@,
            s.description@ == description@,
            s.parameters@ == Seq::<(Seq<char>, Seq<char>)>::empty(),
            s.outcomes@ == Seq::<(Seq<char>, Seq<char>)>::empty(),
            s.success_probability is None,
    {
        Self {
            id: String::from_str(id),
            name: String::from_str(name),
            description: String::from_str(description),
            parameters: StringMap::new(),
            outcomes: StringMap::new(),
            success_probability: None,
            created_at: now(),
        }
    }

    /// Records a parameter, replacing any earlier value of the key.
    pub fn add_parameter(&mut self, key: &str, value: &str)
        requires
            old(self).wf(),
        ensures
            final(self).wf(),
            final(self).parameters@ == stored(old(self).parameters@, key@, value@),
            final(self).outcomes@ == old(self).outcomes@,
            final(self).success_probability == old(self).success_probability,
    {
        self.parameters.insert(key, value);
    }

    /// Records an outcome, replacing any earlier value of the key.
    pub fn add_outcome(&mut self, key: &str, value: &str)
        requires
            old(self).wf(),
        ensures
            final(self).wf(),
            final(self).outcomes@ == stored(old(self).outcomes@, key@, value@),
            final(self).parameters@ == old(self).parameters@,
            final(self).success_probability == old(self).success_probability,
    {
        self.outcomes.insert(key, value);
    }

    /// Sets the probability of success, in thousandths.
    pub fn set_success_probability(&mut self, probability: u32)
        ensures
            final(self).success_probability == Some(probability),
            final(self).parameters == old(self).parameters,
            final(self).outcomes == old(self).outcomes,
            final(self).name == old(self).name,
    {
        self.success_probability = Some(probability);
    }
}

/// A level clamped to the range 1 to 5.
pub open spec fn clamp_level(level: u8) -> u8 {
    if level > 5 {
        5
    } else if level < 1 {
        1
    } else {
        level
    }
}

fn clamp_to_level(level: u8) -> (r: u8)
    ensures
        r == clamp_level(level),
{
    if level > 5 {
        5
    } else if level < 1 {
        1
    } else {
        level
    }
}

/// A financial recommendation.
#[derive(Debug, Clone)]
pub struct FinancialRecommendation {
    /// Recommendation ID
    pub id: String,
    /// Recommendation title
    pub title: String,
    /// Recommendation description
    pub description: String,
    /// Recommendation type
    pub recommendation_type: String,
    /// Priority (1-5, with 1 being highest)
    pub priority: u8,
    /// Impact (1-5, with 5 being highest)
    pub impact: u8,
    /// Effort (1-5, with 5 being highest)
    pub effort: u8,
    /// Timeframe
    pub timeframe: String,
    /// Action steps
    pub action_steps: Vec<String>,
    /// Created timestamp
    pub created_at: Timestamp,
}

impl FinancialRecommendation {
    /// A new recommendation of middle priority, impact and effort, over the
    /// medium term, with no action step.
    pub fn new(id: &str, title: &str, description: &str, recommendation_type: &str) -> (r: Self)
        ensures
            r.id@ == id@,
            r.title@ == title@,
            r.description@ == description@,
            r.recommendation_type@ == recommendation_type@,
            r.priority == 3,
            r.impact == 3,
            r.effort == 3,
            r.timeframe@ == "Medium-term"@,
            r.action_steps@.len() == 0,
    {
        Self {
            id: String::from_str(id),
            title: String::from_str(title),
            description: String::from_str(description),
            recommendation_type: String::from_str(recommendation_type),
            priority: 3,
            impact: 3,
            effort: 3,
            timeframe: String::from_str("Medium-term"),
            action_steps: Vec::new(),
            created_at: now(),
        }
    }

    /// Appends an action step.
    pub fn add_action_step(&mut self, step: &str)
        ensures
            final(self).action_steps@.len() == old(self).action_steps@.len() + 1,
            final(self).action_steps@.drop_last() == old(self).action_steps@,
            final(self).action_steps@.last()@ == step@,
            final(self).id == old(self).id,
            final(self).title == old(self).title,
            final(self).description == old(self).description,
            final(self).recommendation_type == old(self).recommendation_type,
            final(self).priority == old(self).priority,
            final(self).impact == old(self).impact,
            final(self).effort == old(self).effort,
            final(self).timeframe == old(self).timeframe,
    {
        self.action_steps.push(String::from_str(step));
        assert(self.action_steps@.drop_last() =~= old(self).action_steps@);
    }

    /// Sets the priority, clamped to 1 to 5.
    pub fn set_priority(&mut self, priority: u8)
        ensures
            *final(self) == (FinancialRecommendation { priority: clamp_level(priority), ..*old(self) }),
    {
        self.priority = clamp_to_level(priority);
    }

    /// Sets the impact, clamped to 1 to 5.
    pub fn set_impact(&mut self, impact: u8)
        ensures
            *final(self) == (FinancialRecommendation { impact: clamp_level(impact), ..*old(self) }),
    {
        self.impact = clamp_to_level(impact);
    }

    /// Sets the effort, clamped to 1 to 5.
    pub fn set_effort(&mut self, effort: u8)
        ensures
            *final(self) == (FinancialRecommendation { effort: clamp_level(effort), ..*old(self) }),
    {
        self.effort = clamp_to_level(effort);
    }

    /// Sets the timeframe.
    pub fn set_timeframe(&mut self, timeframe: &str)
        ensures
            final(self).timeframe@ == timeframe@,
            final(self).id == old(self).id,
            final(self).title == old(self).title,
            final(self).description == old(self).description,
            final(self).recommendation_type == old(self).recommendation_type,
            final(self).priority == old(self).priority,
            final(self).impact == old(self).impact,
            final(self).effort == old(self).effort,
            final(self).action_steps == old(self).action_steps,
    {
        self.timeframe = String::from_str(timeframe);
    }
}

/// The summary lines of the first `n` steps, numbered from 1.
pub open spec fn step_lines(steps: Seq<ReasoningStep>, n: nat) -> Seq<char>
    decreases n,
{
    if n == 0 {
        Seq::empty()
    } else {
        step_lines(steps, (n - 1) as nat) + decimal(n) + ". "@ + steps[n - 1].step_type.spec_name() + ": "@
            + steps[n - 1].description@ + "\n"@
    }
}

/// A probability in thousandths as a percentage with one decimal, or
/// `N/A` when there is none.
pub open spec fn probability_text(p: Option<u32>) -> Seq<char> {
    match p {
        Some(t) => decimal((t / 10) as nat) + "."@ + decimal((t % 10) as nat) + "%"@,
        None => "N/A"@,
    }
}

/// The summary lines of the first `n` scenarios, numbered from 1.
pub open spec fn scenario_lines(scenarios: Seq<FinancialScenario>, n: nat) -> Seq<char>
    decreases n,
{
    if n == 0 {
        Seq::empty()
    } else {
        scenario_lines(scenarios, (n - 1) as nat) + decimal(n) + ". "@ + scenarios[n - 1].name@
            + " (Success probability: "@ + probability_text(scenarios[n - 1].success_probability) + ")\n"@
    }
}

/// The summary lines of the first `n` recommendations, numbered from 1.
pub open spec fn recommendation_lines(recs: Seq<FinancialRecommendation>, n: nat) -> Seq<char>
    decreases n,
{
    if n == 0 {
        Seq::empty()
    } else {
        recommendation_lines(recs, (n - 1) as nat) + decimal(n) + ". "@ + recs[n - 1].title@ + " (Priority: "@
            + decimal(recs[n - 1].priority as nat) + ")\n"@
    }
}

/// The summary of a reasoning chain: its query and intent, then its steps,
/// scenarios and recommendations, each list only when it is not empty.
pub open spec fn chain_summary(
    query: Seq<char>,
    intent: FinancialQueryIntent,
    steps: Seq<ReasoningStep>,
    scenarios: Seq<FinancialScenario>,
    recs: Seq<FinancialRecommendation>,
) -> Seq<char> {
    let head = "Reasoning for query: \""@ + query + "\"\n"@ + "Intent: "@ + intent.spec_name() + "\n\n"@;
    let with_steps = if steps.len() > 0 {
        head + "Reasoning steps:\n"@ + step_lines(steps, steps.len()) + "\n"@
    } else {
        head
    };
    let with_scenarios = if scenarios.len() > 0 {
        with_steps + "Scenarios analyzed:\n"@ + scenario_lines(scenarios, scenarios.len()) + "\n"@
    } else {
        with_steps
    };
    if recs.len() > 0 {
        with_scenarios + "Recommendations:\n"@ + recommendation_lines(recs, recs.len())
    } else {
        with_scenarios
    }
}

fn append_probability(s: &mut String, p: Option<u32>)
    ensures
        final(s)@ == old(s)@ + probability_text(p),
{
    match p {
        Some(t) => {
            let whole = to_decimal((t / 10) as u64);
            let tenth = to_decimal((t % 10) as u64);
            s.append(whole.as_str());
            s.append(".");
            s.append(tenth.as_str());
            s.append("%");
        },
        None => {
            s.append("N/A");
        },
    }
}

/// A chain of financial reasoning for a query.
#[derive(Debug, Clone)]
pub struct ReasoningChain {
    /// Chain ID
    pub id: String,
    /// Query that initiated this reasoning chain
    pub query: String,
    /// Intent
    pub intent: FinancialQueryIntent,
    /// Steps in the reasoning chain
    pub steps: Vec<ReasoningStep>,
    /// Scenarios analyzed
    pub scenarios: Vec<FinancialScenario>,
    /// Recommendations
    pub recommendations: Vec<FinancialRecommendation>,
    /// Created timestamp
    pub created_at: Timestamp,
    /// Updated timestamp
    pub updated_at: Timestamp,
}

impl ReasoningChain {
    /// A new chain with no steps, scenarios or recommendations.
    pub fn new(id: &str, query: &str, intent: FinancialQueryIntent) -> (c: Self)
        ensures
            c.id@ == id@,
            c.query@ == query@,
            c.intent == intent,
            c.steps@.len() == 0,
            c.scenarios@.len() == 0,
            c.recommendations@.len() == 0,
    {
        let t = now();
        Self {
            id: String::from_str(id),
            query: String::from_str(query),
            intent,
            steps: Vec::new(),
            scenarios: Vec::new(),
            recommendations: Vec::new(),
            created_at: t,
            updated_at: t,
        }
    }

    /// Appends a step.
    pub fn add_step(&mut self, step: ReasoningStep)
        ensures
            final(self).steps@ == old(self).steps@.push(step),
            final(self).scenarios == old(self).scenarios,
            final(self).recommendations == old(self).recommendations,
            final(self).id == old(self).id,
            final(self).query == old(self).query,
            final(self).intent == old(self).intent,
    {
        self.steps.push(step);
        self.updated_at = now();
    }

    /// Appends a scenario.
    pub fn add_scenario(&mut self, scenario: FinancialScenario)
        ensures
            final(self).scenarios@ == old(self).scenarios@.push(scenario),
            final(self).steps == old(self).steps,
            final(self).recommendations == old(self).recommendations,
            final(self).id == old(self).id,
            final(self).query == old(self).query,
            final(self).intent == old(self).intent,
    {
        self.scenarios.push(scenario);
        self.updated_at = now();
    }

    /// Appends a recommendation.
    pub fn add_recommendation(&mut self, recommendation: FinancialRecommendation)
        ensures
            final(self).recommendations@ == old(self).recommendations@.push(recommendation),
            final(self).steps == old(self).steps,
            final(self).scenarios == old(self).scenarios,
            final(self).id == old(self).id,
            final(self).query == old(self).query,
            final(self).intent == old(self).intent,
    {
        self.recommendations.push(recommendation);
        self.updated_at = now();
    }

    /// The last step, if any.
    pub fn get_last_step(&self) -> (r: Option<&ReasoningStep>)
        ensures
            self.steps@.len() == 0 ==> r is None,
            self.steps@.len() > 0 ==> r is Some && *r->0 == self.steps@.last(),
    {
        let n = self.steps.len();
        if n == 0 {
            None
        } else {
            Some(&self.steps[n - 1])
        }
    }

    /// A readable summary of the chain (see `chain_summary`).
    pub fn generate_summary(&self) -> (s: String)
        ensures
            s@ == chain_summary(self.query@, self.intent, self.steps@, self.scenarios@, self.recommendations@),
    {
        let mut s = String::new();
        s.append("Reasoning for query: \"");
        s.append(self.query.as_str());
        s.append("\"\n");
        s.append("Intent: ");
        s.append(self.intent.name());
        s.append("\n\n");
        if self.steps.len() > 0 {
            s.append("Reasoning steps:\n");
            let ghost base = s@;
            let mut i: usize = 0;
            while i < self.steps.len()
                invariant
                    i <= self.steps@.len(),
                    s@ == base + step_lines(self.steps@, i as nat),
                decreases self.steps@.len() - i,
            {
                let label = to_decimal((i + 1) as u64);
                let step = &self.steps[i];
                s.append(label.as_str());
                s.append(". ");
                s.append(step.step_type.name());
                s.append(": ");
                s.append(step.description.as_str());
                s.append("\n");
                i = i + 1;
                assert(s@ =~= base + step_lines(self.steps@, i as nat));
            }
            s.append("\n");
        }
        if self.scenarios.len() > 0 {
            s.append("Scenarios analyzed:\n");
            let ghost base = s@;
            let mut i: usize = 0;
            while i < self.scenarios.len()
                invariant
                    i <= self.scenarios@.len(),
                    s@ == base + scenario_lines(self.scenarios@, i as nat),
                decreases self.scenarios@.len() - i,
            {
                let label = to_decimal((i + 1) as u64);
                let scenario = &self.scenarios[i];
                s.append(label.as_str());
                s.append(". ");
                s.append(scenario.name.as_str());
                s.append(" (Success probability: ");
                append_probability(&mut s, scenario.success_probability);
                s.append(")\n");
                i = i + 1;
                assert(s@ =~= base + scenario_lines(self.scenarios@, i as nat));
            }
            s.append("\n");
        }
        if self.recommendations.len() > 0 {
            s.append("Recommendations:\n");
            let ghost base = s@;
            let mut i: usize = 0;
            while i < self.recommendations.len()
                invariant
                    i <= self.recommendations@.len(),
                    s@ == base + recommendation_lines(self.recommendations@, i as nat),
                decreases self.recommendations@.len() - i,
            {
                let label = to_decimal((i + 1) as u64);
                let rec = &self.recommendations[i];
                let priority = to_decimal(rec.priority as u64);
                s.append(label.as_str());
                s.append(". ");
                s.append(rec.title.as_str());
                s.append(" (Priority: ");
                s.append(priority.as_str());
                s.append(")\n");
                i = i + 1;
                assert(s@ =~= base + recommendation_lines(self.recommendations@, i as nat));
            }
        }
        s
    }
}

/// Financial reasoning service configuration.
#[derive(Debug, Clone, Copy)]
pub struct ReasoningServiceConfig {
    /// Whether to use the language model for reasoning
    pub use_llm: bool,
    /// Whether to use knowledge retrieval
    pub use_knowledge_retrieval: bool,
    /// Maximum number of reasoning steps
    pub max_reasoning_steps: usize,
    /// Maximum number of scenarios to analyze
    pub max_scenarios: usize,
    /// Maximum number of recommendations to generate
    pub max_recommendations: usize,
}

impl Default for ReasoningServiceConfig {
    fn default() -> (c: Self)
        ensures
            c.use_llm,
            c.use_knowledge_retrieval,
            c.max_reasoning_steps == 5,
            c.max_scenarios == 3,
            c.max_recommendations == 3,
    {
        ReasoningServiceConfig {
            use_llm: true,
            use_knowledge_retrieval: true,
            max_reasoning_steps: 5,
            max_scenarios: 3,
            max_recommendations: 3,
        }
    }
}

/// The text of an optional text.
pub open spec fn opt_text(o: Option<&str>) -> Option<Seq<char>> {
    match o {
        Some(s) => Some(s@),
        None => None,
    }
}

/// Intents for which the reasoning identifies goals.
pub open spec fn goal_intent(intent: FinancialQueryIntent) -> bool {
    intent == FinancialQueryIntent::RetirementPlanning || intent == FinancialQueryIntent::EducationPlanning
        || intent == FinancialQueryIntent::GoalProgress || intent == FinancialQueryIntent::HomePurchase
}

/// Intents for which the reasoning assesses risk.
pub open spec fn risk_intent(intent: FinancialQueryIntent) -> bool {
    intent == FinancialQueryIntent::RiskAssessment || intent == FinancialQueryIntent::InvestmentRecommendation
        || intent == FinancialQueryIntent::AssetAllocation
}

/// Intents for which the reasoning analyzes scenarios.
pub open spec fn scenario_intent(intent: FinancialQueryIntent) -> bool {
    intent == FinancialQueryIntent::RetirementPlanning || intent == FinancialQueryIntent::EducationPlanning
        || intent == FinancialQueryIntent::HomePurchase
}

/// An entry-free map.
pub open spec fn no_entries() -> Seq<(Seq<char>, Seq<char>)> {
    Seq::empty()
}

/// The inputs of the information-gathering step: the client data and
/// profile where given, the knowledge where not empty, the query and the
/// intent.
pub open spec fn info_inputs(
    query: Seq<char>,
    intent: FinancialQueryIntent,
    client_data: Option<Seq<char>>,
    client_profile: Option<Seq<char>>,
    knowledge: Seq<char>,
) -> Seq<(Seq<char>, Seq<char>)> {
    let e1 = match client_data {
        Some(d) => stored(no_entries(), "client_data"@, d),
        None => no_entries(),
    };
    let e2 = match client_profile {
        Some(p) => stored(e1, "client_profile"@, p),
        None => e1,
    };
    let e3 = if knowledge.len() > 0 { stored(e2, "knowledge"@, knowledge) } else { e2 };
    stored(stored(e3, "query"@, query), "intent"@, intent.spec_name())
}

/// A planned step: type, description, inputs and outputs.
pub open spec fn step_plan(
    t: ReasoningStepType,
    description: Seq<char>,
    input: Seq<(Seq<char>, Seq<char>)>,
    output: Seq<(Seq<char>, Seq<char>)>,
) -> (ReasoningStepType, Seq<char>, Seq<(Seq<char>, Seq<char>)>, Seq<(Seq<char>, Seq<char>)>) {
    (t, description, input, output)
}

/// A planned scenario: identifier, name and description.
pub open spec fn planned_scenarios(intent: FinancialQueryIntent) -> Seq<(Seq<char>, Seq<char>, Seq<char>)> {
    if scenario_intent(intent) {
        seq![
            ("scenario_1"@, "Base scenario"@, "Current savings rate and investment allocation"@),
            ("scenario_2"@, "Aggressive scenario"@, "Increased savings rate and more aggressive allocation"@),
            ("scenario_3"@, "Conservative scenario"@, "Current savings rate and more conservative allocation"@),
        ]
    } else {
        Seq::empty()
    }
}

/// A planned recommendation: identifier, title, description, type,
/// priority and action steps.
pub open spec fn planned_recommendations(intent: FinancialQueryIntent) -> Seq<(Seq<char>, Seq<char>, Seq<char>, Seq<char>, u8, Seq<Seq<char>>)> {
    if intent == FinancialQueryIntent::RetirementPlanning {
        seq![
            ("rec_1"@, "Increase retirement contributions"@, "Increase your 401(k) contributions to the maximum allowed"@,
                "Retirement"@, 1u8, seq!["Increase 401(k) contribution to 15% of salary"@, "Set up automatic increases of 1% per year"@]),
            ("rec_2"@, "Open a Roth IRA"@, "Supplement your 401(k) with a Roth IRA for tax diversification"@,
                "Retirement"@, 2u8, seq!["Open a Roth IRA account"@, "Set up automatic monthly contributions"@]),
        ]
    } else if intent == FinancialQueryIntent::AssetAllocation {
        seq![
            ("rec_1"@, "Rebalance portfolio"@, "Rebalance your portfolio to align with your target asset allocation"@,
                "Investment"@, 1u8, seq!["Sell overweight asset classes"@, "Buy underweight asset classes"@,
                "Set up quarterly rebalancing reminders"@]),
        ]
    } else if intent == FinancialQueryIntent::TaxOptimization {
        seq![
            ("rec_1"@, "Tax-loss harvesting"@, "Harvest losses in your taxable accounts to offset gains"@,
                "Tax"@, 2u8, seq!["Identify investments with unrealized losses"@,
                "Sell and replace with similar but not substantially identical investments"@,
                "Wait 31 days before repurchasing original investments"@]),
        ]
    } else {
        seq![
            ("rec_1"@, "Review financial plan"@, "Schedule a comprehensive financial plan review"@,
                "General"@, 3u8, seq!["Schedule a meeting with your financial advisor"@,
                "Prepare a list of questions and concerns"@, "Update your financial goals and priorities"@]),
        ]
    }
}

/// The explanation a language model gives for every chain.
pub open spec fn model_explanation() -> Seq<char> {
    "Based on your financial situation and goals, I've analyzed several scenarios and generated recommendations to help you achieve your objectives. The most important action you can take is to increase your retirement contributions, which will significantly improve your retirement readiness."@
}

/// The titles joined with `, `.
pub open spec fn joined_titles(titles: Seq<Seq<char>>) -> Seq<char>
    decreases titles.len(),
{
    if titles.len() == 0 {
        Seq::empty()
    } else if titles.len() == 1 {
        titles[0]
    } else {
        joined_titles(titles.drop_last()) + ", "@ + titles.last()
    }
}

/// The explanation of a chain: the model's where a model explains,
/// otherwise one naming the intent, the recommendations and the first
/// scenario.
pub open spec fn explanation_text(
    model_explains: bool,
    intent: FinancialQueryIntent,
    titles: Seq<Seq<char>>,
    scenario_names: Seq<Seq<char>>,
) -> Seq<char> {
    if model_explains {
        model_explanation()
    } else {
        let head = "Based on your query about "@ + intent.spec_name() + ", "@;
        let with_recs = if titles.len() > 0 {
            head + "I recommend the following actions: "@ + joined_titles(titles) + "."@
        } else {
            head
        };
        if scenario_names.len() > 0 {
            with_recs + " I've analyzed different scenarios, and the most promising approach is "@ + scenario_names[0] + "."@
        } else {
            with_recs
        }
    }
}

/// The steps planned for a chain, in order: information gathering, goal
/// identification, risk assessment and scenario analysis where the intent
/// calls for them, recommendation generation and explanation.
pub open spec fn planned_steps(
    query: Seq<char>,
    intent: FinancialQueryIntent,
    client_data: Option<Seq<char>>,
    client_profile: Option<Seq<char>>,
    knowledge: Seq<char>,
    explanation: Seq<char>,
) -> Seq<(ReasoningStepType, Seq<char>, Seq<(Seq<char>, Seq<char>)>, Seq<(Seq<char>, Seq<char>)>)> {
    let info = step_plan(ReasoningStepType::InformationGathering, "Gathering relevant information"@,
        info_inputs(query, intent, client_data, client_profile, knowledge), stored(no_entries(), "status"@, "completed"@));
    let goal = step_plan(ReasoningStepType::GoalIdentification, "Identifying financial goals"@,
        if client_profile is Some { stored(no_entries(), "client_goals"@, "Goals extracted from client profile"@) } else { no_entries() },
        stored(no_entries(), "identified_goals"@, "Retirement at age 65 with $80,000 annual income"@));
    let risk = step_plan(ReasoningStepType::RiskAssessment, "Assessing risk tolerance and capacity"@,
        if client_profile is Some {
            stored(stored(no_entries(), "risk_tolerance"@, "Moderate"@), "risk_capacity"@, "Moderate"@)
        } else {
            no_entries()
        },
        stored(no_entries(), "risk_assessment"@, "Client has moderate risk tolerance and capacity"@));
    let scenario = step_plan(ReasoningStepType::ScenarioAnalysis, "Analyzing different scenarios"@, no_entries(),
        stored(stored(no_entries(), "scenarios_analyzed"@, "3"@), "recommended_scenario"@, "Base scenario"@));
    let rec = step_plan(ReasoningStepType::RecommendationGeneration, "Generating recommendations"@, no_entries(),
        stored(no_entries(), "recommendations_generated"@, decimal(planned_recommendations(intent).len())));
    let expl = step_plan(ReasoningStepType::Explanation, "Generating explanation"@, no_entries(),
        stored(no_entries(), "explanation"@, explanation));
    seq![info] + (if goal_intent(intent) { seq![goal] } else { Seq::empty() })
        + (if risk_intent(intent) { seq![risk] } else { Seq::empty() })
        + (if scenario_intent(intent) { seq![scenario] } else { Seq::empty() }) + seq![rec, expl]
}

/// The step is as planned.
pub open spec fn step_as_planned(
    s: ReasoningStep,
    p: (ReasoningStepType, Seq<char>, Seq<(Seq<char>, Seq<char>)>, Seq<(Seq<char>, Seq<char>)>),
) -> bool {
    &&& s.wf()
    &&& s.step_type == p.0
    &&& s.description@ == p.1
    &&& s.input@ == p.2
    &&& s.output@ == p.3
}

/// The recommendation is as planned, of middle impact and effort, over the
/// medium term.
pub open spec fn recommendation_as_planned(
    r: FinancialRecommendation,
    p: (Seq<char>, Seq<char>, Seq<char>, Seq<char>, u8, Seq<Seq<char>>),
) -> bool {
    &&& r.id@ == p.0
    &&& r.title@ == p.1
    &&& r.description@ == p.2
    &&& r.recommendation_type@ == p.3
    &&& r.priority == p.4
    &&& r.impact == 3
    &&& r.effort == 3
    &&& r.timeframe@ == "Medium-term"@
    &&& r.action_steps@.len() == p.5.len()
    &&& forall|i: int| 0 <= i < p.5.len() ==> #[trigger] r.action_steps@[i]@ == p.5[i]
}

/// The scenario is as planned, with no parameters, outcomes or
/// probability.
pub open spec fn scenario_as_planned(s: FinancialScenario, p: (Seq<char>, Seq<char>, Seq<char>)) -> bool {
    &&& s.wf()
    &&& s.id@ == p.0
    &&& s.name@ == p.1
    &&& s.description@ == p.2
    &&& s.parameters@ == no_entries()
    &&& s.outcomes@ == no_entries()
    &&& s.success_probability is None
}

/// The titles of planned recommendations.
pub open spec fn planned_titles(intent: FinancialQueryIntent) -> Seq<Seq<char>> {
    planned_recommendations(intent).map_values(|p: (Seq<char>, Seq<char>, Seq<char>, Seq<char>, u8, Seq<Seq<char>>)| p.1)
}

/// The names of planned scenarios.
pub open spec fn planned_scenario_names(intent: FinancialQueryIntent) -> Seq<Seq<char>> {
    planned_scenarios(intent).map_values(|p: (Seq<char>, Seq<char>, Seq<char>)| p.1)
}

/// The chain holds the planned steps, scenarios and recommendations for
/// the query and intent.
pub open spec fn chain_as_planned(
    c: ReasoningChain,
    query: Seq<char>,
    intent: FinancialQueryIntent,
    client_data: Option<Seq<char>>,
    client_profile: Option<Seq<char>>,
    knowledge: Seq<char>,
    model_explains: bool,
) -> bool {
    let recs = planned_recommendations(intent);
    let scenarios = planned_scenarios(intent);
    let explanation = explanation_text(model_explains, intent, planned_titles(intent), planned_scenario_names(intent));
    let steps = planned_steps(query, intent, client_data, client_profile, knowledge, explanation);
    &&& c.query@ == query
    &&& c.intent == intent
    &&& c.recommendations@.len() == recs.len()
    &&& forall|i: int| 0 <= i < recs.len() ==> recommendation_as_planned(#[trigger] c.recommendations@[i], recs[i])
    &&& c.scenarios@.len() == scenarios.len()
    &&& forall|i: int| 0 <= i < scenarios.len() ==> scenario_as_planned(#[trigger] c.scenarios@[i], scenarios[i])
    &&& c.steps@.len() == steps.len()
    &&& forall|i: int| 0 <= i < steps.len() ==> step_as_planned(#[trigger] c.steps@[i], steps[i])
}

/// The smaller of a count and its limit.
pub open spec fn at_most(n: nat, limit: usize) -> nat {
    if n <= limit { n } else { limit as nat }
}

/// The chain as planned for the query (see `chain_as_planned`), cut to at
/// most `max_steps` steps, `max_scenarios` scenarios and
/// `max_recommendations` recommendations, the first ones kept.
pub open spec fn chain_within_limits(
    c: ReasoningChain,
    query: Seq<char>,
    intent: FinancialQueryIntent,
    client_data: Option<Seq<char>>,
    client_profile: Option<Seq<char>>,
    knowledge: Seq<char>,
    model_explains: bool,
    max_steps: usize,
    max_scenarios: usize,
    max_recommendations: usize,
) -> bool {
    let recs = planned_recommendations(intent);
    let scenarios = planned_scenarios(intent);
    let explanation = explanation_text(model_explains, intent, planned_titles(intent), planned_scenario_names(intent));
    let steps = planned_steps(query, intent, client_data, client_profile, knowledge, explanation);
    &&& c.query@ == query
    &&& c.intent == intent
    &&& c.recommendations@.len() == at_most(recs.len(), max_recommendations)
    &&& forall|i: int| 0 <= i < c.recommendations@.len() ==> recommendation_as_planned(#[trigger] c.recommendations@[i], recs[i])
    &&& c.scenarios@.len() == at_most(scenarios.len(), max_scenarios)
    &&& forall|i: int| 0 <= i < c.scenarios@.len() ==> scenario_as_planned(#[trigger] c.scenarios@[i], scenarios[i])
    &&& c.steps@.len() == at_most(steps.len(), max_steps)
    &&& forall|i: int| 0 <= i < c.steps@.len() ==> step_as_planned(#[trigger] c.steps@[i], steps[i])
}

fn make_recommendation(id: &str, title: &str, description: &str, kind: &str, priority: u8, steps: &Vec<&str>) -> (r: FinancialRecommendation)
    requires
        1 <= priority <= 5,
    ensures
        recommendation_as_planned(r, (id@, title@, description@, kind@, priority, steps@.map_values(|s: &str| s@))),
{
    let mut r = FinancialRecommendation::new(id, title, description, kind);
    r.set_priority(priority);
    let mut i: usize = 0;
    while i < steps.len()
        invariant
            i <= steps@.len(),
            r.id@ == id@,
            r.title@ == title@,
            r.description@ == description@,
            r.recommendation_type@ == kind@,
            r.priority == priority,
            r.impact == 3,
            r.effort == 3,
            r.timeframe@ == "Medium-term"@,
            r.action_steps@.len() == i,
            forall|k: int| 0 <= k < i ==> #[trigger] r.action_steps@[k]@ == steps@[k]@,
        decreases steps@.len() - i,
    {
        let ghost before = r.action_steps@;
        r.add_action_step(steps[i]);
        assert forall|k: int| 0 <= k < i + 1 implies #[trigger] r.action_steps@[k]@ == steps@[k]@ by {
            if k < i {
                assert(r.action_steps@.drop_last()[k] == before[k]);
            }
        }
        i = i + 1;
    }
    r
}

fn recommendations_for(intent: FinancialQueryIntent) -> (v: Vec<FinancialRecommendation>)
    ensures
        v@.len() == planned_recommendations(intent).len(),
        forall|i: int| 0 <= i < v@.len() ==> recommendation_as_planned(#[trigger] v@[i], planned_recommendations(intent)[i]),
{
    let mut v: Vec<FinancialRecommendation> = Vec::new();
    if intent == FinancialQueryIntent::RetirementPlanning {
        let s1: Vec<&str> = vec!["Increase 401(k) contribution to 15% of salary", "Set up automatic increases of 1% per year"];
        let r1 = make_recommendation("rec_1", "Increase retirement contributions",
            "Increase your 401(k) contributions to the maximum allowed", "Retirement", 1, &s1);
        let s2: Vec<&str> = vec!["Open a Roth IRA account", "Set up automatic monthly contributions"];
        let r2 = make_recommendation("rec_2", "Open a Roth IRA",
            "Supplement your 401(k) with a Roth IRA for tax diversification", "Retirement", 2, &s2);
        assert(s1@.map_values(|s: &str| s@) =~= seq!["Increase 401(k) contribution to 15% of salary"@, "Set up automatic increases of 1% per year"@]);
        assert(s2@.map_values(|s: &str| s@) =~= seq!["Open a Roth IRA account"@, "Set up automatic monthly contributions"@]);
        v.push(r1);
        v.push(r2);
    } else if intent == FinancialQueryIntent::AssetAllocation {
        let s1: Vec<&str> = vec!["Sell overweight asset classes", "Buy underweight asset classes", "Set up quarterly rebalancing reminders"];
        let r1 = make_recommendation("rec_1", "Rebalance portfolio",
            "Rebalance your portfolio to align with your target asset allocation", "Investment", 1, &s1);
        assert(s1@.map_values(|s: &str| s@) =~= seq!["Sell overweight asset classes"@, "Buy underweight asset classes"@,
            "Set up quarterly rebalancing reminders"@]);
        v.push(r1);
    } else if intent == FinancialQueryIntent::TaxOptimization {
        let s1: Vec<&str> = vec!["Identify investments with unrealized losses",
            "Sell and replace with similar but not substantially identical investments",
            "Wait 31 days before repurchasing original investments"];
        let r1 = make_recommendation("rec_1", "Tax-loss harvesting",
            "Harvest losses in your taxable accounts to offset gains", "Tax", 2, &s1);
        assert(s1@.map_values(|s: &str| s@) =~= seq!["Identify investments with unrealized losses"@,
            "Sell and replace with similar but not substantially identical investments"@,
            "Wait 31 days before repurchasing original investments"@]);
        v.push(r1);
    } else {
        let s1: Vec<&str> = vec!["Schedule a meeting with your financial advisor",
            "Prepare a list of questions and concerns", "Update your financial goals and priorities"];
        let r1 = make_recommendation("rec_1", "Review financial plan",
            "Schedule a comprehensive financial plan review", "General", 3, &s1);
        assert(s1@.map_values(|s: &str| s@) =~= seq!["Schedule a meeting with your financial advisor"@,
            "Prepare a list of questions and concerns"@, "Update your financial goals and priorities"@]);
        v.push(r1);
    }
    v
}

fn explanation_for(chain: &ReasoningChain, model_explains: bool) -> (s: String)
    ensures
        s@ == explanation_text(model_explains, chain.intent,
            chain.recommendations@.map_values(|r: FinancialRecommendation| r.title@),
            chain.scenarios@.map_values(|c: FinancialScenario| c.name@)),
{
    if model_explains {
        return String::from_str("Based on your financial situation and goals, I've analyzed several scenarios and generated recommendations to help you achieve your objectives. The most important action you can take is to increase your retirement contributions, which will significantly improve your retirement readiness.");
    }
    let ghost titles = chain.recommendations@.map_values(|r: FinancialRecommendation| r.title@);
    let ghost names = chain.scenarios@.map_values(|c: FinancialScenario| c.name@);
    let mut s = String::new();
    s.append("Based on your query about ");
    s.append(chain.intent.name());
    s.append(", ");
    if chain.recommendations.len() > 0 {
        s.append("I recommend the following actions: ");
        let ghost base = s@;
        let mut i: usize = 0;
        while i < chain.recommendations.len()
            invariant
                i <= chain.recommendations@.len(),
                titles == chain.recommendations@.map_values(|r: FinancialRecommendation| r.title@),
                s@ == base + joined_titles(titles.subrange(0, i as int)),
            decreases chain.recommendations@.len() - i,
        {
            if i > 0 {
                s.append(", ");
            }
            s.append(chain.recommendations[i].title.as_str());
            assert(titles.subrange(0, i + 1).drop_last() =~= titles.subrange(0, i as int));
            i = i + 1;
        }
        assert(titles.subrange(0, titles.len() as int) =~= titles);
        s.append(".");
    }
    if chain.scenarios.len() > 0 {
        s.append(" I've analyzed different scenarios, and the most promising approach is ");
        s.append(chain.scenarios[0].name.as_str());
        s.append(".");
    }
    s
}

/// Builds the chain of reasoning for a query from what was gathered: the
/// client data and profile as text where there are any, and the knowledge
/// found (empty when none). The steps, scenarios and recommendations follow
/// the plan for the intent (see `chain_as_planned`); the explanation is the
/// language model's where `model_explains`.
pub fn build_reasoning_chain(
    chain_id: &str,
    query: &str,
    intent: FinancialQueryIntent,
    client_data: Option<&str>,
    client_profile: Option<&str>,
    knowledge: &str,
    model_explains: bool,
) -> (c: ReasoningChain)
    ensures
        c.id@ == chain_id@,
        chain_as_planned(c, query@, intent, opt_text(client_data), opt_text(client_profile), knowledge@, model_explains),
{
    let mut chain = ReasoningChain::new(chain_id, query, intent);
    let ghost explanation = explanation_text(model_explains, intent, planned_titles(intent), planned_scenario_names(intent));
    let ghost plan = planned_steps(query@, intent, opt_text(client_data), opt_text(client_profile), knowledge@, explanation);

    let mut info = ReasoningStep::new(ReasoningStepType::InformationGathering, "Gathering relevant information");
    match client_data {
        Some(d) => info.add_input("client_data", d),
        None => {},
    }
    match client_profile {
        Some(p) => info.add_input("client_profile", p),
        None => {},
    }
    if !knowledge.is_empty() {
        info.add_input("knowledge", knowledge);
    }
    info.add_input("query", query);
    info.add_input("intent", intent.name());
    info.add_output("status", "completed");
    chain.add_step(info);
    let ghost mut done: Seq<(ReasoningStepType, Seq<char>, Seq<(Seq<char>, Seq<char>)>, Seq<(Seq<char>, Seq<char>)>)> = seq![plan[0]];

    if intent == FinancialQueryIntent::RetirementPlanning || intent == FinancialQueryIntent::EducationPlanning
        || intent == FinancialQueryIntent::GoalProgress || intent == FinancialQueryIntent::HomePurchase {
        let mut goal = ReasoningStep::new(ReasoningStepType::GoalIdentification, "Identifying financial goals");
        if client_profile.is_some() {
            goal.add_input("client_goals", "Goals extracted from client profile");
        }
        goal.add_output("identified_goals", "Retirement at age 65 with $80,000 annual income");
        chain.add_step(goal);
        proof {
            done = done.push(step_plan(ReasoningStepType::GoalIdentification, "Identifying financial goals"@,
                if client_profile is Some { stored(no_entries(), "client_goals"@, "Goals extracted from client profile"@) } else { no_entries() },
                stored(no_entries(), "identified_goals"@, "Retirement at age 65 with $80,000 annual income"@)));
        }
    }

    if intent == FinancialQueryIntent::RiskAssessment || intent == FinancialQueryIntent::InvestmentRecommendation
        || intent == FinancialQueryIntent::AssetAllocation {
        let mut risk = ReasoningStep::new(ReasoningStepType::RiskAssessment, "Assessing risk tolerance and capacity");
        if client_profile.is_some() {
            risk.add_input("risk_tolerance", "Moderate");
            risk.add_input("risk_capacity", "Moderate");
        }
        risk.add_output("risk_assessment", "Client has moderate risk tolerance and capacity");
        chain.add_step(risk);
        proof {
            done = done.push(step_plan(ReasoningStepType::RiskAssessment, "Assessing risk tolerance and capacity"@,
                if client_profile is Some {
                    stored(stored(no_entries(), "risk_tolerance"@, "Moderate"@), "risk_capacity"@, "Moderate"@)
                } else {
                    no_entries()
                },
                stored(no_entries(), "risk_assessment"@, "Client has moderate risk tolerance and capacity"@)));
        }
    }

    if intent == FinancialQueryIntent::RetirementPlanning || intent == FinancialQueryIntent::EducationPlanning
        || intent == FinancialQueryIntent::HomePurchase {
        let mut scenario_step = ReasoningStep::new(ReasoningStepType::ScenarioAnalysis, "Analyzing different scenarios");
        let base = FinancialScenario::new("scenario_1", "Base scenario", "Current savings rate and investment allocation");
        let aggressive = FinancialScenario::new("scenario_2", "Aggressive scenario",
            "Increased savings rate and more aggressive allocation");
        let conservative = FinancialScenario::new("scenario_3", "Conservative scenario",
            "Current savings rate and more conservative allocation");
        chain.add_scenario(base);
        chain.add_scenario(aggressive);
        chain.add_scenario(conservative);
        scenario_step.add_output("scenarios_analyzed", "3");
        scenario_step.add_output("recommended_scenario", "Base scenario");
        chain.add_step(scenario_step);
        proof {
            done = done.push(step_plan(ReasoningStepType::ScenarioAnalysis, "Analyzing different scenarios"@, no_entries(),
                stored(stored(no_entries(), "scenarios_analyzed"@, "3"@), "recommended_scenario"@, "Base scenario"@)));
        }
    }

    let mut rec_step = ReasoningStep::new(ReasoningStepType::RecommendationGeneration, "Generating recommendations");
    let mut recs = recommendations_for(intent);
    let ghost all_recs = recs@;
    while recs.len() > 0
        invariant
            all_recs.len() == planned_recommendations(intent).len(),
            forall|k: int| 0 <= k < all_recs.len() ==> recommendation_as_planned(#[trigger] all_recs[k], planned_recommendations(intent)[k]),
            chain.recommendations@ + recs@ == all_recs,
            chain.steps@.len() == done.len(),
            forall|k: int| 0 <= k < done.len() ==> step_as_planned(#[trigger] chain.steps@[k], done[k]),
            chain.query@ == query@,
            chain.intent == intent,
            chain.id@ == chain_id@,
            chain.scenarios@.len() == planned_scenarios(intent).len(),
            forall|k: int| 0 <= k < planned_scenarios(intent).len() ==> scenario_as_planned(#[trigger] chain.scenarios@[k], planned_scenarios(intent)[k]),
        decreases recs@.len(),
    {
        let r = recs.remove(0);
        chain.add_recommendation(r);
        assert(chain.recommendations@ + recs@ =~= all_recs);
    }
    assert(chain.recommendations@ =~= all_recs);
    let count = to_decimal(chain.recommendations.len() as u64);
    rec_step.add_output("recommendations_generated", count.as_str());
    chain.add_step(rec_step);
    proof {
        done = done.push(step_plan(ReasoningStepType::RecommendationGeneration, "Generating recommendations"@, no_entries(),
            stored(no_entries(), "recommendations_generated"@, decimal(planned_recommendations(intent).len()))));
        assert(chain.recommendations@.map_values(|r: FinancialRecommendation| r.title@) =~= planned_titles(intent));
        assert(chain.scenarios@.map_values(|c: FinancialScenario| c.name@) =~= planned_scenario_names(intent));
    }
    let mut explanation_step = ReasoningStep::new(ReasoningStepType::Explanation, "Generating explanation");
    let text = explanation_for(&chain, model_explains);
    explanation_step.add_output("explanation", text.as_str());
    chain.add_step(explanation_step);
    proof {
        done = done.push(step_plan(ReasoningStepType::Explanation, "Generating explanation"@, no_entries(),
            stored(no_entries(), "explanation"@, explanation)));
        assert(done =~= plan);
    }
    chain
}

/// One line `title: content` per item.
pub open spec fn knowledge_lines(items: Seq<KnowledgeItem>) -> Seq<char>
    decreases items.len(),
{
    if items.len() == 0 {
        Seq::empty()
    } else {
        knowledge_lines(items.drop_last()) + items.last().title@ + ": "@ + items.last().content@ + "\n"@
    }
}

/// The knowledge text gathered from the items found for the query and the
/// items related to the intent: the found items, completed from the
/// intent's items when fewer than three, at most three of them.
pub open spec fn gathered_knowledge(found: Seq<KnowledgeItem>, by_intent: Seq<KnowledgeItem>) -> Seq<char> {
    knowledge_lines(combined_items(found, by_intent, 3))
}

/// The response text of a chain: the explanation recorded by its last
/// explanation step, if it recorded one.
pub open spec fn chain_explanation(steps: Seq<ReasoningStep>) -> Option<Seq<char>>
    decreases steps.len(),
{
    if steps.len() == 0 {
        None
    } else if steps.last().step_type == ReasoningStepType::Explanation {
        lookup(steps.last().output@, "explanation"@)
    } else {
        chain_explanation(steps.drop_last())
    }
}

/// Combines the items found for a query with the intent's items and
/// renders at most three of them (see `gathered_knowledge`).
pub fn gather_knowledge(found: Vec<&KnowledgeItem>, by_intent: Vec<&KnowledgeItem>) -> (s: String)
    ensures
        s@ == gathered_knowledge(deref_items(found@), deref_items(by_intent@)),
{
    let all = combine_items(found, by_intent, 3);
    let mut text = String::new();
    let mut k: usize = 0;
    while k < all.len()
        invariant
            k <= all@.len(),
            text@ == knowledge_lines(deref_items(all@).subrange(0, k as int)),
        decreases all@.len() - k,
    {
        text.append(all[k].title.as_str());
        text.append(": ");
        text.append(all[k].content.as_str());
        text.append("\n");
        assert(deref_items(all@).subrange(0, k + 1).drop_last() =~= deref_items(all@).subrange(0, k as int));
        k = k + 1;
    }
    assert(deref_items(all@).subrange(0, all@.len() as int) =~= deref_items(all@));
    text
}

/// The knowledge gathered for a query and intent from a retriever: its
/// keyword matches for the query, completed from its items for the intent
/// (see `gathered_knowledge`).
pub open spec fn relevant_knowledge(kr: KnowledgeRetriever, query: Seq<char>, intent: FinancialQueryIntent, text: Seq<char>) -> bool {
    exists|found: Seq<KnowledgeItem>|
        #![trigger keyword_matches(kr.items_view(), kr.config_view().max_items, query, found)]
        keyword_matches(kr.items_view(), kr.config_view().max_items, query, found)
            && text == gathered_knowledge(found, intent_items(kr.items_view(), intent))
}

/// Reasons about financial queries.
#[derive(Debug)]
pub struct FinancialReasoningService {
    bedrock_attached: bool,
    knowledge_retriever: Option<Arc<KnowledgeRetriever>>,
    config: ReasoningServiceConfig,
}

impl FinancialReasoningService {
    /// The configuration.
    pub closed spec fn config_view(&self) -> ReasoningServiceConfig {
        self.config
    }

    /// The retriever attached, if any.
    pub closed spec fn retriever_view(&self) -> Option<KnowledgeRetriever> {
        match self.knowledge_retriever {
            Some(r) => Some(*r),
            None => None,
        }
    }

    /// A language model is attached and the configuration lets it explain.
    pub closed spec fn model_explains(&self) -> bool {
        self.config.use_llm && self.bedrock_attached
    }

    /// What the service gathers as knowledge for a query and intent: nothing
    /// unless retrieval is configured and a retriever attached.
    pub open spec fn knowledge_for(&self, query: Seq<char>, intent: FinancialQueryIntent, text: Seq<char>) -> bool {
        if self.config_view().use_knowledge_retrieval && self.retriever_view() is Some {
            relevant_knowledge(self.retriever_view()->0, query, intent, text)
        } else {
            text == Seq::<char>::empty()
        }
    }

    /// A service with no model client and no retriever.
    pub fn new(config: ReasoningServiceConfig) -> (s: Self)
        ensures
            s.config_view() == config,
            s.retriever_view() is None,
            !s.model_explains(),
    {
        Self { bedrock_attached: false, knowledge_retriever: None, config }
    }

    /// The service with a language-model client attached: where the
    /// configuration allows it, explanations then come from the model.
    pub fn with_bedrock(self) -> (s: Self)
        ensures
            s.config_view() == self.config_view(),
            s.retriever_view() == self.retriever_view(),
            s.model_explains() == self.config_view().use_llm,
    {
        Self { bedrock_attached: true, ..self }
    }

    /// The service with a knowledge retriever attached.
    pub fn with_knowledge_retriever(self, retriever: Arc<KnowledgeRetriever>) -> (s: Self)
        ensures
            s.config_view() == self.config_view(),
            s.retriever_view() == Some(*retriever),
            s.model_explains() == self.model_explains(),
    {
        Self { knowledge_retriever: Some(retriever), ..self }
    }

    fn retrieve_relevant_knowledge(&self, query: &str, intent: &FinancialQueryIntent) -> (s: String)
        requires
            self.retriever_view() is Some,
        ensures
            relevant_knowledge(self.retriever_view()->0, query@, *intent, s@),
    {
        match &self.knowledge_retriever {
            Some(retriever) => {
                let found = retriever.retrieve_by_query(query);
                let ghost found_items = deref_items(found@);
                let by_intent = retriever.retrieve_by_intent(intent);
                assert(deref_items(by_intent@) =~= intent_items(retriever.items_view(), *intent));
                let s = gather_knowledge(found, by_intent);
                assert(keyword_matches(retriever.items_view(), retriever.config_view().max_items, query@, found_items));
                s
            },
            None => String::new(),
        }
    }

    /// The chain of reasoning for a query: identified `chain_` and the
    /// current time in seconds, with the knowledge the service gathers (see
    /// `knowledge_for`) and the plan for the intent (see `chain_as_planned`),
    /// kept within the configured maximum numbers of steps, scenarios and
    /// recommendations.
    pub fn generate_reasoning_chain(
        &self,
        query: &str,
        intent: FinancialQueryIntent,
        client_data: Option<&str>,
        client_profile: Option<&str>,
    ) -> (c: ReasoningChain)
        ensures
            exists|secs: int| c.id@ == "chain_"@ + signed_decimal(secs),
            c.steps@.len() <= self.config_view().max_reasoning_steps,
            c.scenarios@.len() <= self.config_view().max_scenarios,
            c.recommendations@.len() <= self.config_view().max_recommendations,
            exists|knowledge: Seq<char>|
                self.knowledge_for(query@, intent, knowledge) && chain_within_limits(c, query@, intent,
                    opt_text(client_data), opt_text(client_profile), knowledge, self.model_explains(),
                    self.config_view().max_reasoning_steps, self.config_view().max_scenarios,
                    self.config_view().max_recommendations),
    {
        let t = now();
        let secs = t.seconds();
        let mut id = String::from_str("chain_");
        let digits = to_decimal_signed(secs);
        id.append(digits.as_str());
        let knowledge = if self.config.use_knowledge_retrieval && self.knowledge_retriever.is_some() {
            self.retrieve_relevant_knowledge(query, &intent)
        } else {
            String::new()
        };
        let model = self.config.use_llm && self.bedrock_attached;
        let mut c = build_reasoning_chain(id.as_str(), query, intent, client_data, client_profile, knowledge.as_str(), model);
        assert(self.knowledge_for(query@, intent, knowledge@));
        assert(c.id@ == "chain_"@ + signed_decimal(secs as int));
        let ghost full = c;
        c.steps.truncate(self.config.max_reasoning_steps);
        c.scenarios.truncate(self.config.max_scenarios);
        c.recommendations.truncate(self.config.max_recommendations);
        assert(chain_within_limits(c, query@, intent, opt_text(client_data), opt_text(client_profile), knowledge@,
            self.model_explains(), self.config.max_reasoning_steps, self.config.max_scenarios,
            self.config.max_recommendations)) by {
            assert forall|i: int| 0 <= i < c.steps@.len() implies c.steps@[i] == full.steps@[i] by {}
            assert forall|i: int| 0 <= i < c.scenarios@.len() implies c.scenarios@[i] == full.scenarios@[i] by {}
            assert forall|i: int| 0 <= i < c.recommendations@.len() implies c.recommendations@[i] == full.recommendations@[i] by {}
        }
        c
    }

    /// The response for a chain: the explanation recorded by its last
    /// explanation step (a fixed sentence when none was recorded), with the
    /// chain's summary as explanation, at a confidence of 900 thousandths.
    pub fn generate_response(&self, chain: &ReasoningChain) -> (r: NlpResponse)
        ensures
            r.query@ == chain.query@,
            r.intent == chain.intent,
            r.confidence == 900,
            r.processed_query is None,
            r.response_text@ == match chain_explanation(chain.steps@) {
                Some(e) => e,
                None => "I've analyzed your query and generated recommendations."@,
            },
            r.source == NlpResponseSource::Reasoning,
            r.confidence_level == confidence_band(900),
            !r.is_uncertain,
            r.explanation is Some,
            r.explanation->0@ == chain_summary(chain.query@, chain.intent, chain.steps@, chain.scenarios@, chain.recommendations@),
    {
        let ghost steps = chain.steps@;
        let mut found: Option<String> = None;
        let mut k: usize = chain.steps.len();
        assert(steps.subrange(0, k as int) =~= steps);
        while k > 0
            invariant_except_break
                found is None,
                chain_explanation(steps) == chain_explanation(steps.subrange(0, k as int)),
            invariant
                k <= steps.len(),
                steps == chain.steps@,
            ensures
                chain_explanation(steps) is None ==> found is None,
                chain_explanation(steps) is Some ==> found is Some && found->0@ == chain_explanation(steps)->0,
            decreases k,
        {
            assert(steps.subrange(0, k as int).drop_last() =~= steps.subrange(0, k - 1));
            if chain.steps[k - 1].step_type == ReasoningStepType::Explanation {
                match chain.steps[k - 1].output.get("explanation") {
                    Some(e) => {
                        found = Some(e.clone());
                    },
                    None => {},
                }
                break;
            }
            k = k - 1;
        }
        let text = match found {
            Some(e) => e,
            None => String::from_str("I've analyzed your query and generated recommendations."),
        };
        NlpResponse {
            query: chain.query.clone(),
            intent: chain.intent,
            confidence: 900,
            processed_query: None,
            response_text: text,
            source: NlpResponseSource::Reasoning,
            confidence_level: NlpConfidenceLevel::from_score(900),
            is_uncertain: false,
            explanation: Some(chain.generate_summary()),
        }
    }
}

} // verus!
