//! Conversation management: a bounded history of turns, the conversation
//! state and the goals pursued in the conversation.

use vstd::prelude::*;
use std::collections::VecDeque;
use crate::clock::{Timestamp, now, new_id};
use crate::text::{to_lowercase, lowercase, decimal, to_decimal};
use super::rule_based::{FinancialQueryIntent, ProcessedQuery, ExtractedEntity};
use super::types::NlpResponse;

verus! {

/// Maximum number of turns kept in conversation history.
pub const MAX_HISTORY_TURNS: usize = 10;

/// A single exchange between user and system.
#[derive(Debug, Clone)]
pub struct ConversationTurn {
    /// Unique ID for this turn
    pub id: String,
    /// User query
    pub query: String,
    /// Processed query with intent and entities
    pub processed_query: Option<ProcessedQuery>,
    /// System response
    pub response: Option<NlpResponse>,
    /// When this turn was created
    pub timestamp: Timestamp,
}

impl ConversationTurn {
    /// A new turn for a user query, not yet processed nor answered.
    pub fn new(query: String) -> (t: Self)
        ensures
            t.query == query,
            t.processed_query is None,
            t.response is None,
    {
        Self { id: new_id(), query, processed_query: None, response: None, timestamp: now() }
    }

    /// The turn with its processed query set.
    pub fn with_processed_query(self, processed_query: ProcessedQuery) -> (t: Self)
        ensures
            t == (Self { processed_query: Some(processed_query), ..self }),
    {
        Self { processed_query: Some(processed_query), ..self }
    }

    /// The turn with its response set.
    pub fn with_response(self, response: NlpResponse) -> (t: Self)
        ensures
            t == (Self { response: Some(response), ..self }),
    {
        Self { response: Some(response), ..self }
    }
}

/// Conversation goal type.
#[derive(Debug, Clone, Copy, PartialEq, Eq, Structural)]
pub enum ConversationGoalType {
    /// Information gathering
    InformationGathering,
    /// Goal planning
    GoalPlanning,
    /// Portfolio review
    PortfolioReview,
    /// Risk assessment
    RiskAssessment,
    /// Financial education
    FinancialEducation,
    /// Problem resolution
    ProblemResolution,
}

impl ConversationGoalType {
    /// The goal type's name, as it is displayed.
    pub open spec fn spec_name(self) -> Seq<char> {
        match self {
            ConversationGoalType::InformationGathering => "InformationGathering"@,
            ConversationGoalType::GoalPlanning => "GoalPlanning"@,
            ConversationGoalType::PortfolioReview => "PortfolioReview"@,
            ConversationGoalType::RiskAssessment => "RiskAssessment"@,
            ConversationGoalType::FinancialEducation => "FinancialEducation"@,
            ConversationGoalType::ProblemResolution => "ProblemResolution"@,
        }
    }

    /// The goal type's name, as it is displayed.
    pub fn name(&self) -> (s: &'static str)
        ensures
            s@ == self.spec_name(),
    {
        match self {
            ConversationGoalType::InformationGathering => "InformationGathering",
            ConversationGoalType::GoalPlanning => "GoalPlanning",
            ConversationGoalType::PortfolioReview => "PortfolioReview",
            ConversationGoalType::RiskAssessment => "RiskAssessment",
            ConversationGoalType::FinancialEducation => "FinancialEducation",
            ConversationGoalType::ProblemResolution => "ProblemResolution",
        }
    }
}

/// Conversation goal status.
#[derive(Debug, Clone, Copy, PartialEq, Eq, Structural)]
pub enum GoalStatus {
    /// Not started
    NotStarted,
    /// In progress
    InProgress,
    /// Completed
    Completed,
    /// Abandoned
    Abandoned,
}

impl GoalStatus {
    /// The status's name, as it is displayed.
    pub open spec fn spec_name(self) -> Seq<char> {
        match self {
            GoalStatus::NotStarted => "NotStarted"@,
            GoalStatus::InProgress => "InProgress"@,
            GoalStatus::Completed => "Completed"@,
            GoalStatus::Abandoned => "Abandoned"@,
        }
    }

    /// The status's name, as it is displayed.
    pub fn name(&self) -> (s: &'static str)
        ensures
            s@ == self.spec_name(),
    {
        match self {
            GoalStatus::NotStarted => "NotStarted",
            GoalStatus::InProgress => "InProgress",
            GoalStatus::Completed => "Completed",
            GoalStatus::Abandoned => "Abandoned",
        }
    }
}

/// Information a conversation goal needs.
#[derive(Debug, Clone)]
pub struct RequiredInformation {
    /// Information type
    pub info_type: String,
    /// Whether this information is required
    pub is_required: bool,
    /// Whether this information has been collected
    pub is_collected: bool,
    /// The collected value, if any
    pub value: Option<String>,
}

/// Errors of conversation bookkeeping.
#[derive(Debug, Clone, Copy, PartialEq, Eq, Structural)]
pub enum ConversationError {
    /// No required information has the given type.
    InformationNotFound,
    /// The conversation has no turn yet.
    NoTurns,
}

/// A conversation goal.
#[derive(Debug, Clone)]
pub struct ConversationGoal {
    /// Goal ID
    pub id: String,
    /// Goal type
    pub goal_type: ConversationGoalType,
    /// Goal status
    pub status: GoalStatus,
    /// Required information
    pub required_information: Vec<RequiredInformation>,
    /// Created timestamp
    pub created_at: Timestamp,
    /// Updated timestamp
    pub updated_at: Timestamp,
}

/// Index of the first required information of the type, if any.
pub open spec fn info_index(infos: Seq<RequiredInformation>, info_type: Seq<char>) -> Option<int> {
    if exists|i: int| 0 <= i < infos.len() && infos[i].info_type@ == info_type {
        Some(choose|i: int| 0 <= i < infos.len() && infos[i].info_type@ == info_type
            && forall|k: int| 0 <= k < i ==> infos[k].info_type@ != info_type)
    } else {
        None
    }
}

/// Every required item has been collected.
pub open spec fn all_required_collected(infos: Seq<RequiredInformation>) -> bool {
    forall|i: int| 0 <= i < infos.len() && #[trigger] infos[i].is_required ==> infos[i].is_collected
}

impl ConversationGoal {
    /// A new goal of the type, not started and needing nothing yet.
    pub fn new(goal_type: ConversationGoalType) -> (g: Self)
        ensures
            g.goal_type == goal_type,
            g.status == GoalStatus::NotStarted,
            g.required_information@.len() == 0,
    {
        let t = now();
        Self {
            id: new_id(),
            goal_type,
            status: GoalStatus::NotStarted,
            required_information: Vec::new(),
            created_at: t,
            updated_at: t,
        }
    }

    /// Adds a piece of information the goal needs, not yet collected.
    pub fn add_required_information(&mut self, info_type: &str, is_required: bool)
        ensures
            final(self).required_information@.len() == old(self).required_information@.len() + 1,
            final(self).required_information@.drop_last() == old(self).required_information@,
            final(self).required_information@.last().info_type@ == info_type@,
            final(self).required_information@.last().is_required == is_required,
            !final(self).required_information@.last().is_collected,
            final(self).required_information@.last().value is None,
            final(self).status == old(self).status,
            final(self).goal_type == old(self).goal_type,
            final(self).id == old(self).id,
    {
        self.required_information.push(RequiredInformation {
            info_type: String::from_str(info_type),
            is_required,
            is_collected: false,
            value: None,
        });
        self.updated_at = now();
        assert(self.required_information@.drop_last() =~= old(self).required_information@);
    }

    /// Records the value of the first required information of the type; an
    /// in-progress goal becomes completed once every required item is
    /// collected.
    pub fn set_information_collected(&mut self, info_type: &str, value: String) -> (r: Result<(), ConversationError>)
        ensures
            match info_index(old(self).required_information@, info_type@) {
                None => r == Err::<(), ConversationError>(ConversationError::InformationNotFound) && *final(self) == *old(self),
                Some(i) => {
                    &&& r is Ok
                    &&& final(self).required_information@ == old(self).required_information@.update(i,
                        RequiredInformation { is_collected: true, value: Some(value), ..old(self).required_information@[i] })
                    &&& final(self).status == if old(self).status == GoalStatus::InProgress
                        && all_required_collected(final(self).required_information@) {
                        GoalStatus::Completed
                    } else {
                        old(self).status
                    }
                    &&& final(self).goal_type == old(self).goal_type
                    &&& final(self).id == old(self).id
                },
            },
    {
        let ghost infos = self.required_information@;
        let wanted = String::from_str(info_type);
        let mut i: usize = 0;
        while i < self.required_information.len()
            invariant
                i <= infos.len(),
                infos == self.required_information@,
                wanted@ == info_type@,
                forall|k: int| 0 <= k < i ==> infos[k].info_type@ != info_type@,
            ensures
                i <= infos.len(),
                forall|k: int| 0 <= k < i ==> infos[k].info_type@ != info_type@,
                i < infos.len() ==> infos[i as int].info_type@ == info_type@,
            decreases infos.len() - i,
        {
            if self.required_information[i].info_type == wanted {
                break;
            }
            i = i + 1;
        }
        if i == self.required_information.len() {
            assert(info_index(infos, info_type@) is None);
            return Err(ConversationError::InformationNotFound);
        }
        proof {
            assert(infos[i as int].info_type@ == info_type@);
            let j = info_index(infos, info_type@)->0;
            assert(j == i);
        }
        let mut info = self.required_information.remove(i);
        info.is_collected = true;
        info.value = Some(value);
        self.required_information.insert(i, info);
        self.updated_at = now();
        assert(self.required_information@ =~= infos.update(i as int, info));
        let mut all = true;
        let mut k: usize = 0;
        while k < self.required_information.len()
            invariant
                k <= self.required_information@.len(),
                all <==> forall|m: int| 0 <= m < k && #[trigger] self.required_information@[m].is_required ==> self.required_information@[m].is_collected,
            decreases self.required_information@.len() - k,
        {
            if self.required_information[k].is_required && !self.required_information[k].is_collected {
                all = false;
            }
            k = k + 1;
        }
        if all && self.status == GoalStatus::InProgress {
            self.status = GoalStatus::Completed;
        }
        Ok(())
    }

    /// Starts a goal that has not started; any other goal is left as it is.
    pub fn start(&mut self)
        ensures
            final(self).status == if old(self).status == GoalStatus::NotStarted { GoalStatus::InProgress } else { old(self).status },
            final(self).required_information == old(self).required_information,
            final(self).goal_type == old(self).goal_type,
            final(self).id == old(self).id,
    {
        if self.status == GoalStatus::NotStarted {
            self.status = GoalStatus::InProgress;
            self.updated_at = now();
        }
    }

    /// Marks the goal completed.
    pub fn complete(&mut self)
        ensures
            final(self).status == GoalStatus::Completed,
            final(self).required_information == old(self).required_information,
            final(self).goal_type == old(self).goal_type,
            final(self).id == old(self).id,
    {
        self.status = GoalStatus::Completed;
        self.updated_at = now();
    }

    /// Marks the goal abandoned.
    pub fn abandon(&mut self)
        ensures
            final(self).status == GoalStatus::Abandoned,
            final(self).required_information == old(self).required_information,
            final(self).goal_type == old(self).goal_type,
            final(self).id == old(self).id,
    {
        self.status = GoalStatus::Abandoned;
        self.updated_at = now();
    }
}

/// The state of a conversation.
#[derive(Debug, Clone, Copy, PartialEq, Eq, Structural)]
pub enum ConversationState {
    /// Initial greeting
    Greeting,
    /// Initial state
    Initial,
    /// Information gathering
    InformationGathering,
    /// Goal planning
    GoalPlanning,
    /// Recommendation
    Recommendation,
    /// Explanation
    Explanation,
    /// Closing
    Closing,
    /// Discussing portfolio performance
    DiscussingPerformance,
    /// Discussing retirement planning
    DiscussingRetirement,
    /// Discussing financial goals
    DiscussingGoals,
    /// Discussing education planning
    DiscussingEducation,
    /// Discussing tax optimization
    DiscussingTaxes,
    /// Discussing life events
    DiscussingLifeEvents,
    /// Providing emotional support
    ProvidingEmotionalSupport,
    /// Discussing investments
    DiscussingInvestments,
    /// Discussing risk assessment
    DiscussingRisk,
    /// Discussing estate planning
    DiscussingEstate,
    /// Discussing insurance planning
    DiscussingInsurance,
    /// Discussing debt management
    DiscussingDebt,
    /// Discussing budget
    DiscussingBudget,
    /// Discussing income strategies
    DiscussingIncome,
    /// Discussing charitable planning
    DiscussingCharity,
    /// Discussing business planning
    DiscussingBusiness,
    /// Discussing healthcare planning
    DiscussingHealthcare,
    /// Discussing international planning
    DiscussingInternational,
    /// Discussing social security optimization
    DiscussingSocialSecurity,
    /// Providing help
    ProvidingHelp,
}

impl ConversationState {
    /// The state's name, as it is displayed.
    pub open spec fn spec_name(self) -> Seq<char> {
        match self {
            ConversationState::Greeting => "Greeting"@,
            ConversationState::Initial => "Initial"@,
            ConversationState::InformationGathering => "InformationGathering"@,
            ConversationState::GoalPlanning => "GoalPlanning"@,
            ConversationState::Recommendation => "Recommendation"@,
            ConversationState::Explanation => "Explanation"@,
            ConversationState::Closing => "Closing"@,
            ConversationState::DiscussingPerformance => "DiscussingPerformance"@,
            ConversationState::DiscussingRetirement => "DiscussingRetirement"@,
            ConversationState::DiscussingGoals => "DiscussingGoals"@,
            ConversationState::DiscussingEducation => "DiscussingEducation"@,
            ConversationState::DiscussingTaxes => "DiscussingTaxes"@,
            ConversationState::DiscussingLifeEvents => "DiscussingLifeEvents"@,
            ConversationState::ProvidingEmotionalSupport => "ProvidingEmotionalSupport"@,
            ConversationState::DiscussingInvestments => "DiscussingInvestments"@,
            ConversationState::DiscussingRisk => "DiscussingRisk"@,
            ConversationState::DiscussingEstate => "DiscussingEstate"@,
            ConversationState::DiscussingInsurance => "DiscussingInsurance"@,
            ConversationState::DiscussingDebt => "DiscussingDebt"@,
            ConversationState::DiscussingBudget => "DiscussingBudget"@,
            ConversationState::DiscussingIncome => "DiscussingIncome"@,
            ConversationState::DiscussingCharity => "DiscussingCharity"@,
            ConversationState::DiscussingBusiness => "DiscussingBusiness"@,
            ConversationState::DiscussingHealthcare => "DiscussingHealthcare"@,
            ConversationState::DiscussingInternational => "DiscussingInternational"@,
            ConversationState::DiscussingSocialSecurity => "DiscussingSocialSecurity"@,
            ConversationState::ProvidingHelp => "ProvidingHelp"@,
        }
    }

    /// The state's name, as it is displayed.
    pub fn name(&self) -> (s: &'static str)
        ensures
            s@ == self.spec_name(),
    {
        match self {
            ConversationState::Greeting => "Greeting",
            ConversationState::Initial => "Initial",
            ConversationState::InformationGathering => "InformationGathering",
            ConversationState::GoalPlanning => "GoalPlanning",
            ConversationState::Recommendation => "Recommendation",
            ConversationState::Explanation => "Explanation",
            ConversationState::Closing => "Closing",
            ConversationState::DiscussingPerformance => "DiscussingPerformance",
            ConversationState::DiscussingRetirement => "DiscussingRetirement",
            ConversationState::DiscussingGoals => "DiscussingGoals",
            ConversationState::DiscussingEducation => "DiscussingEducation",
            ConversationState::DiscussingTaxes => "DiscussingTaxes",
            ConversationState::DiscussingLifeEvents => "DiscussingLifeEvents",
            ConversationState::ProvidingEmotionalSupport => "ProvidingEmotionalSupport",
            ConversationState::DiscussingInvestments => "DiscussingInvestments",
            ConversationState::DiscussingRisk => "DiscussingRisk",
            ConversationState::DiscussingEstate => "DiscussingEstate",
            ConversationState::DiscussingInsurance => "DiscussingInsurance",
            ConversationState::DiscussingDebt => "DiscussingDebt",
            ConversationState::DiscussingBudget => "DiscussingBudget",
            ConversationState::DiscussingIncome => "DiscussingIncome",
            ConversationState::DiscussingCharity => "DiscussingCharity",
            ConversationState::DiscussingBusiness => "DiscussingBusiness",
            ConversationState::DiscussingHealthcare => "DiscussingHealthcare",
            ConversationState::DiscussingInternational => "DiscussingInternational",
            ConversationState::DiscussingSocialSecurity => "DiscussingSocialSecurity",
            ConversationState::ProvidingHelp => "ProvidingHelp",
        }
    }
}

/// Appends a turn to a history, dropping the oldest turn when the history
/// would hold more than `MAX_HISTORY_TURNS` turns.
pub open spec fn push_bounded(h: Seq<ConversationTurn>, t: ConversationTurn) -> Seq<ConversationTurn> {
    if h.len() + 1 > MAX_HISTORY_TURNS {
        h.push(t).drop_first()
    } else {
        h.push(t)
    }
}

/// The history stays bounded: adding a turn to a history of at most
/// `MAX_HISTORY_TURNS` turns gives at most `MAX_HISTORY_TURNS` turns,
/// ending with the new turn and keeping the newest earlier turns in order.
pub proof fn lemma_history_bounded(h: Seq<ConversationTurn>, t: ConversationTurn)
    requires
        h.len() <= MAX_HISTORY_TURNS,
    ensures
        push_bounded(h, t).len() <= MAX_HISTORY_TURNS,
        push_bounded(h, t).len() == if h.len() < MAX_HISTORY_TURNS { h.len() + 1 } else { MAX_HISTORY_TURNS as nat },
        push_bounded(h, t).last() == t,
        push_bounded(h, t) == h.push(t).subrange(h.len() + 1 - push_bounded(h, t).len(), h.len() + 1 as int),
{
    assert(push_bounded(h, t) =~= h.push(t).subrange(h.len() + 1 - push_bounded(h, t).len(), h.len() + 1 as int));
}

/// Index of the first goal with the identifier, if any.
pub open spec fn goal_index(goals: Seq<ConversationGoal>, goal_id: Seq<char>) -> Option<int> {
    if exists|i: int| 0 <= i < goals.len() && goals[i].id@ == goal_id {
        Some(choose|i: int| 0 <= i < goals.len() && goals[i].id@ == goal_id
            && forall|k: int| 0 <= k < i ==> goals[k].id@ != goal_id)
    } else {
        None
    }
}

/// The most recent response in a history.
pub open spec fn latest_response(h: Seq<ConversationTurn>) -> Option<NlpResponse>
    decreases h.len(),
{
    if h.len() == 0 {
        None
    } else if h.last().response is Some {
        h.last().response
    } else {
        latest_response(h.drop_last())
    }
}

/// The most recent processed query in a history.
pub open spec fn latest_processed(h: Seq<ConversationTurn>) -> Option<ProcessedQuery>
    decreases h.len(),
{
    if h.len() == 0 {
        None
    } else if h.last().processed_query is Some {
        h.last().processed_query
    } else {
        latest_processed(h.drop_last())
    }
}

/// The entities of a turn's processed query (none when it has none).
pub open spec fn turn_entities(t: ConversationTurn) -> Seq<ExtractedEntity> {
    match t.processed_query {
        Some(pq) => pq.entities@,
        None => Seq::empty(),
    }
}

/// All entities of a history, turn by turn, each turn's in its order.
pub open spec fn history_entities(h: Seq<ConversationTurn>) -> Seq<ExtractedEntity>
    decreases h.len(),
{
    if h.len() == 0 {
        Seq::empty()
    } else {
        history_entities(h.drop_last()) + turn_entities(h.last())
    }
}

/// The summary lines of one turn, labelled with its position.
pub open spec fn turn_lines(t: ConversationTurn, label: nat) -> Seq<char> {
    let user = "Turn "@ + decimal(label) + ": User: "@ + t.query@ + "\n"@;
    match t.response {
        Some(r) => user + "Turn "@ + decimal(label) + ": System: "@ + r.response_text@ + "\n"@,
        None => user,
    }
}

/// The summary lines of the first `n` turns, labelled from 1.
pub open spec fn history_lines(turns: Seq<ConversationTurn>, n: nat) -> Seq<char>
    decreases n,
{
    if n == 0 {
        Seq::empty()
    } else {
        history_lines(turns, (n - 1) as nat) + turn_lines(turns[n - 1], n)
    }
}

/// The summary lines of the first `n` goals.
pub open spec fn goal_lines(goals: Seq<ConversationGoal>, n: nat) -> Seq<char>
    decreases n,
{
    if n == 0 {
        Seq::empty()
    } else {
        goal_lines(goals, (n - 1) as nat) + "- "@ + goals[n - 1].goal_type.spec_name() + " (Status: "@
            + goals[n - 1].status.spec_name() + ")\n"@
    }
}

/// The last three turns of a history (all of it when shorter).
pub open spec fn recent_turns(h: Seq<ConversationTurn>) -> Seq<ConversationTurn> {
    if h.len() > 3 {
        h.subrange(h.len() - 3, h.len() as int)
    } else {
        h
    }
}

/// The context summary of a conversation: its identifiers and state, its
/// last three turns, and its goals when it has any.
pub open spec fn context_summary(
    id: Seq<char>,
    client_id: Seq<char>,
    state: ConversationState,
    h: Seq<ConversationTurn>,
    goals: Seq<ConversationGoal>,
) -> Seq<char> {
    let recent = recent_turns(h);
    let head = "Conversation ID: "@ + id + "\n"@ + "Client ID: "@ + client_id + "\n"@ + "Current state: "@
        + state.spec_name() + "\n"@ + "\nRecent conversation history:\n"@ + history_lines(recent, recent.len());
    if goals.len() > 0 {
        head + "\nActive goals:\n"@ + goal_lines(goals, goals.len())
    } else {
        head
    }
}

fn clone_entity(e: &ExtractedEntity) -> (r: ExtractedEntity)
    ensures
        r == *e,
{
    ExtractedEntity {
        entity_type: e.entity_type,
        value: e.value.clone(),
        confidence: e.confidence,
        start_pos: e.start_pos,
        end_pos: e.end_pos,
    }
}

fn clone_entities(v: &Vec<ExtractedEntity>) -> (r: Vec<ExtractedEntity>)
    ensures
        r@ == v@,
{
    let mut r: Vec<ExtractedEntity> = Vec::new();
    let mut i: usize = 0;
    while i < v.len()
        invariant
            i <= v@.len(),
            r@ == v@.subrange(0, i as int),
        decreases v@.len() - i,
    {
        r.push(clone_entity(&v[i]));
        i = i + 1;
        assert(r@ =~= v@.subrange(0, i as int));
    }
    assert(v@.subrange(0, v@.len() as int) =~= v@);
    r
}

/// A conversation with one client: its bounded history, its state and its
/// goals.
pub struct ConversationManager {
    /// Conversation ID
    pub id: String,
    /// Client ID
    pub client_id: String,
    history: VecDeque<ConversationTurn>,
    state: ConversationState,
    active_goals: Vec<ConversationGoal>,
    /// Created timestamp
    pub created_at: Timestamp,
    /// Updated timestamp
    pub updated_at: Timestamp,
}

impl ConversationManager {
    /// The turns kept, oldest first.
    pub closed spec fn history_view(&self) -> Seq<ConversationTurn> {
        self.history@
    }

    /// The conversation's identifier.
    pub closed spec fn id_view(&self) -> Seq<char> {
        self.id@
    }

    /// The client's identifier.
    pub closed spec fn client_id_view(&self) -> Seq<char> {
        self.client_id@
    }

    /// The current state.
    pub closed spec fn state_view(&self) -> ConversationState {
        self.state
    }

    /// The goals, in the order they were added.
    pub closed spec fn goals_view(&self) -> Seq<ConversationGoal> {
        self.active_goals@
    }

    /// When the conversation was created and last updated.
    pub closed spec fn times_view(&self) -> (Timestamp, Timestamp) {
        (self.created_at, self.updated_at)
    }

    /// Takes the identifier and the times of a stored conversation; the
    /// turns, state, goals and client are kept.
    pub fn set_identity(&mut self, id: String, created_at: Timestamp, updated_at: Timestamp)
        ensures
            final(self).id_view() == id@,
            final(self).times_view() == (created_at, updated_at),
            final(self).client_id_view() == old(self).client_id_view(),
            final(self).history_view() == old(self).history_view(),
            final(self).state_view() == old(self).state_view(),
            final(self).goals_view() == old(self).goals_view(),
    {
        self.id = id;
        self.created_at = created_at;
        self.updated_at = updated_at;
    }

    /// The history holds at most `MAX_HISTORY_TURNS` turns.
    pub open spec fn wf(&self) -> bool {
        self.history_view().len() <= MAX_HISTORY_TURNS
    }

    /// A new conversation with a client: no turns, no goals, greeting.
    pub fn new(client_id: &str) -> (m: Self)
        ensures
            m.wf(),
            m.client_id_view() == client_id@,
            m.history_view() == Seq::<ConversationTurn>::empty(),
            m.goals_view() == Seq::<ConversationGoal>::empty(),
            m.state_view() == ConversationState::Greeting,
    {
        let t = now();
        Self {
            id: new_id(),
            client_id: String::from_str(client_id),
            history: VecDeque::with_capacity(MAX_HISTORY_TURNS),
            state: ConversationState::Greeting,
            active_goals: Vec::new(),
            created_at: t,
            updated_at: t,
        }
    }

    fn push_turn(&mut self, turn: ConversationTurn)
        requires
            old(self).wf(),
        ensures
            final(self).wf(),
            final(self).history_view() == push_bounded(old(self).history_view(), turn),
            final(self).state_view() == old(self).state_view(),
            final(self).goals_view() == old(self).goals_view(),
            final(self).id_view() == old(self).id_view(),
            final(self).client_id_view() == old(self).client_id_view(),
    {
        self.history.push_back(turn);
        if self.history.len() > MAX_HISTORY_TURNS {
            let _ = self.history.pop_front();
        }
        self.updated_at = now();
    }

    /// Adds a turn for a user query, not yet processed nor answered, and
    /// returns it; the oldest turn is dropped past `MAX_HISTORY_TURNS`.
    pub fn add_user_query(&mut self, query: &str) -> (t: &ConversationTurn)
        requires
            old(self).wf(),
        ensures
            final(self).wf(),
            final(self).history_view() == push_bounded(old(self).history_view(), *t),
            t.query@ == query@,
            t.processed_query is None,
            t.response is None,
            final(self).state_view() == old(self).state_view(),
            final(self).goals_view() == old(self).goals_view(),
            final(self).id_view() == old(self).id_view(),
            final(self).client_id_view() == old(self).client_id_view(),
    {
        let turn = ConversationTurn::new(String::from_str(query));
        self.push_turn(turn);
        let n = self.history.len();
        &self.history[n - 1]
    }

    /// Sets the processed query of the latest turn; fails when there is no
    /// turn.
    pub fn update_current_turn_with_processed_query(&mut self, processed_query: ProcessedQuery) -> (r: Result<(), ConversationError>)
        requires
            old(self).wf(),
        ensures
            final(self).wf(),
            old(self).history_view().len() == 0 ==> r == Err::<(), ConversationError>(ConversationError::NoTurns)
                && final(self).history_view() == old(self).history_view(),
            old(self).history_view().len() > 0 ==> r is Ok && final(self).history_view() == old(self).history_view().update(
                old(self).history_view().len() - 1,
                ConversationTurn { processed_query: Some(processed_query), ..old(self).history_view().last() }),
            final(self).state_view() == old(self).state_view(),
            final(self).goals_view() == old(self).goals_view(),
            final(self).id_view() == old(self).id_view(),
            final(self).client_id_view() == old(self).client_id_view(),
    {
        match self.history.pop_back() {
            None => Err(ConversationError::NoTurns),
            Some(turn) => {
                self.history.push_back(turn.with_processed_query(processed_query));
                self.updated_at = now();
                assert(self.history@ =~= old(self).history@.update(old(self).history@.len() - 1,
                    ConversationTurn { processed_query: Some(processed_query), ..old(self).history@.last() }));
                Ok(())
            },
        }
    }

    /// Sets the response of the latest turn; fails when there is no turn.
    pub fn update_current_turn_with_response(&mut self, response: NlpResponse) -> (r: Result<(), ConversationError>)
        requires
            old(self).wf(),
        ensures
            final(self).wf(),
            old(self).history_view().len() == 0 ==> r == Err::<(), ConversationError>(ConversationError::NoTurns)
                && final(self).history_view() == old(self).history_view(),
            old(self).history_view().len() > 0 ==> r is Ok && final(self).history_view() == old(self).history_view().update(
                old(self).history_view().len() - 1,
                ConversationTurn { response: Some(response), ..old(self).history_view().last() }),
            final(self).state_view() == old(self).state_view(),
            final(self).goals_view() == old(self).goals_view(),
            final(self).id_view() == old(self).id_view(),
            final(self).client_id_view() == old(self).client_id_view(),
    {
        match self.history.pop_back() {
            None => Err(ConversationError::NoTurns),
            Some(turn) => {
                self.history.push_back(turn.with_response(response));
                self.updated_at = now();
                assert(self.history@ =~= old(self).history@.update(old(self).history@.len() - 1,
                    ConversationTurn { response: Some(response), ..old(self).history@.last() }));
                Ok(())
            },
        }
    }

    /// The turns kept, oldest first.
    pub fn get_history(&self) -> (h: &VecDeque<ConversationTurn>)
        ensures
            h@ == self.history_view(),
    {
        &self.history
    }

    /// The conversation's identifier.
    pub fn get_id(&self) -> (s: &String)
        ensures
            s@ == self.id_view(),
    {
        &self.id
    }

    /// The client's identifier.
    pub fn get_client_id(&self) -> (s: &String)
        ensures
            s@ == self.client_id_view(),
    {
        &self.client_id
    }

    /// When the conversation was created and last updated.
    pub fn get_times(&self) -> (t: (Timestamp, Timestamp))
        ensures
            t == self.times_view(),
    {
        (self.created_at, self.updated_at)
    }

    /// The current state.
    pub fn get_state(&self) -> (s: &ConversationState)
        ensures
            *s == self.state_view(),
    {
        &self.state
    }

    /// Moves the conversation to a state.
    pub fn set_state(&mut self, state: ConversationState)
        requires
            old(self).wf(),
        ensures
            final(self).wf(),
            final(self).state_view() == state,
            final(self).history_view() == old(self).history_view(),
            final(self).goals_view() == old(self).goals_view(),
            final(self).id_view() == old(self).id_view(),
            final(self).client_id_view() == old(self).client_id_view(),
    {
        self.state = state;
        self.updated_at = now();
    }

    /// Adds a new goal of the type and returns it.
    pub fn add_goal(&mut self, goal_type: ConversationGoalType) -> (g: &ConversationGoal)
        requires
            old(self).wf(),
        ensures
            final(self).wf(),
            final(self).goals_view() == old(self).goals_view().push(*g),
            g.goal_type == goal_type,
            g.status == GoalStatus::NotStarted,
            g.required_information@.len() == 0,
            final(self).state_view() == old(self).state_view(),
            final(self).history_view() == old(self).history_view(),
            final(self).id_view() == old(self).id_view(),
            final(self).client_id_view() == old(self).client_id_view(),
    {
        let goal = ConversationGoal::new(goal_type);
        self.active_goals.push(goal);
        self.updated_at = now();
        let n = self.active_goals.len();
        &self.active_goals[n - 1]
    }

    /// The goals, in the order they were added.
    pub fn get_active_goals(&self) -> (g: &[ConversationGoal])
        ensures
            g@ == self.goals_view(),
    {
        self.active_goals.as_slice()
    }

    fn find_goal(&self, goal_id: &str) -> (r: Option<usize>)
        ensures
            match goal_index(self.goals_view(), goal_id@) {
                None => r is None,
                Some(i) => r is Some && r->0 == i && 0 <= i < self.goals_view().len(),
            },
    {
        let ghost goals = self.active_goals@;
        let wanted = String::from_str(goal_id);
        let mut i: usize = 0;
        while i < self.active_goals.len()
            invariant
                i <= goals.len(),
                goals == self.active_goals@,
                wanted@ == goal_id@,
                forall|k: int| 0 <= k < i ==> goals[k].id@ != goal_id@,
            ensures
                i <= goals.len(),
                forall|k: int| 0 <= k < i ==> goals[k].id@ != goal_id@,
                i < goals.len() ==> goals[i as int].id@ == goal_id@,
            decreases goals.len() - i,
        {
            if self.active_goals[i].id == wanted {
                break;
            }
            i = i + 1;
        }
        if i == self.active_goals.len() {
            assert(goal_index(goals, goal_id@) is None);
            None
        } else {
            proof {
                let j = goal_index(goals, goal_id@)->0;
                assert(j == i);
            }
            Some(i)
        }
    }

    /// The first goal with the identifier, if any.
    pub fn get_goal_by_id(&self, goal_id: &str) -> (r: Option<&ConversationGoal>)
        ensures
            match goal_index(self.goals_view(), goal_id@) {
                None => r is None,
                Some(i) => r is Some && *r->0 == self.goals_view()[i],
            },
    {
        match self.find_goal(goal_id) {
            None => None,
            Some(i) => Some(&self.active_goals[i]),
        }
    }

    /// The first goal with the identifier, if any, to be changed in place.
    pub fn get_goal_by_id_mut(&mut self, goal_id: &str) -> (r: Option<&mut ConversationGoal>)
        ensures
            match goal_index(old(self).goals_view(), goal_id@) {
                None => r is None && *final(self) == *old(self),
                Some(i) => {
                    &&& r is Some
                    &&& *r->0 == old(self).goals_view()[i]
                    &&& final(self).goals_view() == old(self).goals_view().update(i, *final(r->0))
                    &&& final(self).history_view() == old(self).history_view()
                    &&& final(self).state_view() == old(self).state_view()
                    &&& final(self).id_view() == old(self).id_view()
                    &&& final(self).client_id_view() == old(self).client_id_view()
                },
            },
    {
        match self.find_goal(goal_id) {
            None => None,
            Some(i) => Some(&mut self.active_goals[i]),
        }
    }

    /// Adds an answered turn: its processed query carries the query, the
    /// response's intent and confidence, the entities of the response's
    /// processed query (none when it has none) and the lower-cased query.
    /// Returns the turn; the oldest turn is dropped past `MAX_HISTORY_TURNS`.
    pub fn add_turn(&mut self, query: String, response: NlpResponse) -> (t: &ConversationTurn)
        requires
            old(self).wf(),
        ensures
            final(self).wf(),
            final(self).history_view() == push_bounded(old(self).history_view(), *t),
            t.query@ == query@,
            t.response == Some(response),
            t.processed_query is Some,
            t.processed_query->0.original_text@ == query@,
            t.processed_query->0.intent == response.intent,
            t.processed_query->0.intent_confidence == response.confidence,
            t.processed_query->0.entities@ == match response.processed_query {
                Some(pq) => pq.entities@,
                None => Seq::<ExtractedEntity>::empty(),
            },
            t.processed_query->0.normalized_text@ == lowercase(query@),
            final(self).state_view() == old(self).state_view(),
            final(self).goals_view() == old(self).goals_view(),
            final(self).id_view() == old(self).id_view(),
            final(self).client_id_view() == old(self).client_id_view(),
    {
        let entities = match &response.processed_query {
            Some(pq) => clone_entities(&pq.entities),
            None => Vec::new(),
        };
        let processed_query = ProcessedQuery {
            original_text: query.clone(),
            intent: response.intent,
            intent_confidence: response.confidence,
            entities,
            normalized_text: to_lowercase(query.as_str()),
        };
        let turn = ConversationTurn::new(query).with_processed_query(processed_query).with_response(response);
        self.push_turn(turn);
        let n = self.history.len();
        &self.history[n - 1]
    }

    /// A summary of the conversation for a language model: its identifiers
    /// and state, its last three turns (labelled from 1, oldest first, each
    /// with its answer when it has one), and its goals with their status.
    pub fn generate_context_summary(&self) -> (s: String)
        ensures
            s@ == context_summary(self.id_view(), self.client_id_view(), self.state_view(), self.history_view(), self.goals_view()),
    {
        let mut s = String::new();
        s.append("Conversation ID: ");
        s.append(self.id.as_str());
        s.append("\n");
        s.append("Client ID: ");
        s.append(self.client_id.as_str());
        s.append("\n");
        s.append("Current state: ");
        s.append(self.state.name());
        s.append("\n");
        s.append("\nRecent conversation history:\n");
        let ghost head = s@;
        let n = self.history.len();
        let start: usize = if n > 3 { n - 3 } else { 0 };
        let ghost recent = recent_turns(self.history@);
        assert(recent =~= self.history@.subrange(start as int, n as int));
        let mut k: usize = start;
        while k < n
            invariant
                start <= k <= n,
                n == self.history@.len(),
                n - start <= 3,
                recent == self.history@.subrange(start as int, n as int),
                s@ == head + history_lines(recent, (k - start) as nat),
            decreases n - k,
        {
            let label = to_decimal((k - start + 1) as u64);
            let turn = &self.history[k];
            assert(*turn == recent[(k - start) as int]);
            s.append("Turn ");
            s.append(label.as_str());
            s.append(": User: ");
            s.append(turn.query.as_str());
            s.append("\n");
            match &turn.response {
                Some(r) => {
                    s.append("Turn ");
                    s.append(label.as_str());
                    s.append(": System: ");
                    s.append(r.response_text.as_str());
                    s.append("\n");
                },
                None => {},
            }
            k = k + 1;
            assert(s@ =~= head + history_lines(recent, (k - start) as nat));
        }
        if self.active_goals.len() > 0 {
            s.append("\nActive goals:\n");
            let ghost mid = s@;
            let mut j: usize = 0;
            while j < self.active_goals.len()
                invariant
                    j <= self.active_goals@.len(),
                    s@ == mid + goal_lines(self.active_goals@, j as nat),
                decreases self.active_goals@.len() - j,
            {
                let goal = &self.active_goals[j];
                s.append("- ");
                s.append(goal.goal_type.name());
                s.append(" (Status: ");
                s.append(goal.status.name());
                s.append(")\n");
                j = j + 1;
                assert(s@ =~= mid + goal_lines(self.active_goals@, j as nat));
            }
        }
        s
    }

    /// The latest user query, if there is a turn.
    pub fn get_most_recent_query(&self) -> (r: Option<&str>)
        ensures
            self.history_view().len() == 0 ==> r is None,
            self.history_view().len() > 0 ==> r is Some && r->0@ == self.history_view().last().query@,
    {
        let n = self.history.len();
        if n == 0 {
            None
        } else {
            Some(self.history[n - 1].query.as_str())
        }
    }

    /// The latest response in the history, if any turn has one.
    pub fn get_most_recent_response(&self) -> (r: Option<&NlpResponse>)
        ensures
            latest_response(self.history_view()) is None ==> r is None,
            latest_response(self.history_view()) is Some ==> r is Some && *r->0 == latest_response(self.history_view())->0,
    {
        let ghost h = self.history@;
        let mut k: usize = self.history.len();
        assert(h.subrange(0, k as int) =~= h);
        while k > 0
            invariant
                k <= h.len(),
                h == self.history@,
                latest_response(h) == latest_response(h.subrange(0, k as int)),
            decreases k,
        {
            match &self.history[k - 1].response {
                Some(r) => {
                    return Some(r);
                },
                None => {},
            }
            assert(h.subrange(0, k as int).drop_last() =~= h.subrange(0, k - 1));
            k = k - 1;
        }
        None
    }

    /// The intent of the latest processed query in the history, if any.
    pub fn get_most_recent_intent(&self) -> (r: Option<&FinancialQueryIntent>)
        ensures
            latest_processed(self.history_view()) is None ==> r is None,
            latest_processed(self.history_view()) is Some ==> r is Some && *r->0 == latest_processed(self.history_view())->0.intent,
    {
        let ghost h = self.history@;
        let mut k: usize = self.history.len();
        assert(h.subrange(0, k as int) =~= h);
        while k > 0
            invariant
                k <= h.len(),
                h == self.history@,
                latest_processed(h) == latest_processed(h.subrange(0, k as int)),
            decreases k,
        {
            match &self.history[k - 1].processed_query {
                Some(pq) => {
                    return Some(&pq.intent);
                },
                None => {},
            }
            assert(h.subrange(0, k as int).drop_last() =~= h.subrange(0, k - 1));
            k = k - 1;
        }
        None
    }

    /// Every entity of the conversation's processed queries, oldest turn
    /// first.
    pub fn get_all_entities(&self) -> (r: Vec<&ExtractedEntity>)
        ensures
            r@.len() == history_entities(self.history_view()).len(),
            forall|i: int| 0 <= i < r@.len() ==> *r@[i] == history_entities(self.history_view())[i],
    {
        let ghost h = self.history@;
        let mut r: Vec<&ExtractedEntity> = Vec::new();
        let mut k: usize = 0;
        while k < self.history.len()
            invariant
                k <= h.len(),
                h == self.history@,
                r@.len() == history_entities(h.subrange(0, k as int)).len(),
                forall|i: int| 0 <= i < r@.len() ==> *r@[i] == history_entities(h.subrange(0, k as int))[i],
            decreases h.len() - k,
        {
            let ghost before = history_entities(h.subrange(0, k as int));
            assert(h.subrange(0, k + 1).drop_last() =~= h.subrange(0, k as int));
            match &self.history[k].processed_query {
                Some(pq) => {
                    let mut j: usize = 0;
                    while j < pq.entities.len()
                        invariant
                            j <= pq.entities@.len(),
                            r@.len() == before.len() + j,
                            forall|i: int| 0 <= i < before.len() ==> *r@[i] == before[i],
                            forall|i: int| 0 <= i < j ==> *r@[before.len() + i] == pq.entities@[i],
                        decreases pq.entities@.len() - j,
                    {
                        r.push(&pq.entities[j]);
                        j = j + 1;
                    }
                },
                None => {},
            }
            k = k + 1;
        }
        assert(h.subrange(0, h.len() as int) =~= h);
        r
    }
}

} // verus!
