//! A conversation manager kept in step with a stored conversation: the
//! conversion of its turns to stored messages and back. Reading and writing
//! the store is left to the caller.

use vstd::prelude::*;
use crate::clock::{Timestamp, from_whole_seconds, now, new_id};
use crate::string_map::StringMap;
use crate::text::lowercase;
use super::conversation_manager::{ConversationManager, ConversationTurn, ConversationState, ConversationGoal,
    ConversationGoalType, GoalStatus, ConversationError, MAX_HISTORY_TURNS, push_bounded};
use super::conversation_storage::{Conversation, ConversationMessage, MessageRole};
use super::rule_based::{FinancialQueryIntent, ProcessedQuery};
use super::types::{NlpResponse, NlpResponseSource, NlpConfidenceLevel};

verus! {

/// A stored message as plain values: role, content, intent name and intent
/// confidence.
pub type MessageView = (Seq<char>, Seq<char>, Option<Seq<char>>, Option<u32>);

/// A message as plain values.
pub open spec fn message_view(m: ConversationMessage) -> MessageView {
    (m.role@, m.content@, match m.intent {
        Some(s) => Some(s@),
        None => None,
    }, m.intent_confidence)
}

/// The messages of a conversation as plain values.
pub open spec fn message_views(ms: Seq<ConversationMessage>) -> Seq<MessageView> {
    ms.map_values(|m: ConversationMessage| message_view(m))
}

/// A restored turn as plain values: query, intent, confidence and answer
/// text.
pub type RestoredTurn = (Seq<char>, FinancialQueryIntent, u32, Seq<char>);

/// A user query still waiting for its answer: query, intent, confidence.
pub type PendingQuery = (Seq<char>, Option<FinancialQueryIntent>, Option<u32>);

/// The intent a stored intent name stands for; the names that are not
/// read back stand for `Unknown`.
pub open spec fn stored_intent(name: Seq<char>) -> FinancialQueryIntent {
    if name == FinancialQueryIntent::PortfolioPerformance.spec_name() {
        FinancialQueryIntent::PortfolioPerformance
    } else if name == FinancialQueryIntent::AssetAllocation.spec_name() {
        FinancialQueryIntent::AssetAllocation
    } else if name == FinancialQueryIntent::InvestmentRecommendation.spec_name() {
        FinancialQueryIntent::InvestmentRecommendation
    } else if name == FinancialQueryIntent::RiskAssessment.spec_name() {
        FinancialQueryIntent::RiskAssessment
    } else if name == FinancialQueryIntent::MarketInformation.spec_name() {
        FinancialQueryIntent::MarketInformation
    } else if name == FinancialQueryIntent::SustainableInvesting.spec_name() {
        FinancialQueryIntent::SustainableInvesting
    } else if name == FinancialQueryIntent::RetirementPlanning.spec_name() {
        FinancialQueryIntent::RetirementPlanning
    } else if name == FinancialQueryIntent::AccountInformation.spec_name() {
        FinancialQueryIntent::AccountInformation
    } else if name == FinancialQueryIntent::TaxOptimization.spec_name() {
        FinancialQueryIntent::TaxOptimization
    } else if name == FinancialQueryIntent::DebtManagement.spec_name() {
        FinancialQueryIntent::DebtManagement
    } else if name == FinancialQueryIntent::Greeting.spec_name() {
        FinancialQueryIntent::Greeting
    } else if name == FinancialQueryIntent::Farewell.spec_name() {
        FinancialQueryIntent::Farewell
    } else if name == FinancialQueryIntent::Help.spec_name() {
        FinancialQueryIntent::Help
    } else {
        FinancialQueryIntent::Unknown
    }
}

/// An intent whose name is read back as itself.
pub open spec fn is_stored_intent(i: FinancialQueryIntent) -> bool {
    stored_intent(i.spec_name()) == i
}

/// The turn restored for a query that got no answer.
pub open spec fn unanswered(query: Seq<char>) -> RestoredTurn {
    (query, FinancialQueryIntent::Unknown, 0, Seq::empty())
}

/// Reading one more message: a user message closes the query still waiting
/// (as unanswered) and waits for its own answer; an assistant message
/// answers the query waiting, or stands alone with an empty query; other
/// messages are skipped.
pub open spec fn restore_step(
    state: (Seq<RestoredTurn>, Option<PendingQuery>),
    m: MessageView,
) -> (Seq<RestoredTurn>, Option<PendingQuery>) {
    let (turns, pending) = state;
    if m.0 == "user"@ {
        let closed = match pending {
            Some(p) => turns.push(unanswered(p.0)),
            None => turns,
        };
        (closed, Some((m.1, match m.2 {
            Some(n) => Some(stored_intent(n)),
            None => None,
        }, m.3)))
    } else if m.0 == "assistant"@ {
        match pending {
            Some(p) => (turns.push((p.0, match p.1 {
                Some(i) => i,
                None => FinancialQueryIntent::Unknown,
            }, match p.2 {
                Some(c) => c,
                None => 0,
            }, m.1)), None),
            None => (turns.push((Seq::empty(), FinancialQueryIntent::Unknown, 0, m.1)), None),
        }
    } else {
        state
    }
}

/// The turns and the waiting query after reading the messages in order.
pub open spec fn restore_messages(ms: Seq<MessageView>) -> (Seq<RestoredTurn>, Option<PendingQuery>)
    decreases ms.len(),
{
    if ms.len() == 0 {
        (Seq::empty(), None)
    } else {
        restore_step(restore_messages(ms.drop_last()), ms.last())
    }
}

/// The turns restored from the messages: a query left waiting at the end
/// is unanswered.
pub open spec fn restored_turns(ms: Seq<MessageView>) -> Seq<RestoredTurn> {
    let (turns, pending) = restore_messages(ms);
    match pending {
        Some(p) => turns.push(unanswered(p.0)),
        None => turns,
    }
}

/// The turn carries the restored values, answered from mixed sources at
/// a low confidence band, with its processed query made from the answer.
pub open spec fn is_restored_turn(t: ConversationTurn, r: RestoredTurn) -> bool {
    &&& t.query@ == r.0
    &&& t.response matches Some(resp) && {
        &&& resp.query@ == r.0
        &&& resp.intent == r.1
        &&& resp.confidence == r.2
        &&& resp.response_text@ == r.3
        &&& resp.processed_query is None
        &&& resp.source == NlpResponseSource::Hybrid
        &&& resp.confidence_level == NlpConfidenceLevel::Low
        &&& !resp.is_uncertain
        &&& resp.explanation is None
    }
    &&& t.processed_query matches Some(pq) && {
        &&& pq.original_text@ == r.0
        &&& pq.intent == r.1
        &&& pq.intent_confidence == r.2
        &&& pq.entities@.len() == 0
        &&& pq.normalized_text@ == lowercase(r.0)
    }
}

/// The history holds the last `MAX_HISTORY_TURNS` restored turns, in order.
pub open spec fn restored_history(h: Seq<ConversationTurn>, rs: Seq<RestoredTurn>) -> bool {
    let start = if rs.len() > MAX_HISTORY_TURNS { rs.len() - MAX_HISTORY_TURNS } else { 0 };
    &&& h.len() == rs.len() - start
    &&& forall|k: int| 0 <= k < h.len() ==> is_restored_turn(#[trigger] h[k], rs[start + k])
}

/// The waiting query as plain values.
pub open spec fn pending_view(p: Option<(String, Option<FinancialQueryIntent>, Option<u32>)>) -> Option<PendingQuery> {
    match p {
        Some((q, i, c)) => Some((q@, i, c)),
        None => None,
    }
}

proof fn lemma_restored_history_push(h: Seq<ConversationTurn>, rs: Seq<RestoredTurn>, t: ConversationTurn, r: RestoredTurn)
    requires
        restored_history(h, rs),
        is_restored_turn(t, r),
    ensures
        restored_history(push_bounded(h, t), rs.push(r)),
{
    let h2 = push_bounded(h, t);
    let rs2 = rs.push(r);
    let start2 = if rs2.len() > MAX_HISTORY_TURNS { rs2.len() - MAX_HISTORY_TURNS } else { 0 };
    assert forall|k: int| 0 <= k < h2.len() implies is_restored_turn(#[trigger] h2[k], rs2[start2 + k]) by {
        if h.len() + 1 > MAX_HISTORY_TURNS {
            assert(h2[k] == h.push(t)[k + 1]);
        } else {
            assert(h2[k] == h.push(t)[k]);
        }
    }
}

fn is_named(name: &String, intent: FinancialQueryIntent) -> (b: bool)
    ensures
        b == (name@ == intent.spec_name()),
{
    *name == String::from_str(intent.name())
}

/// The intent a stored intent name stands for (see `stored_intent`).
pub fn intent_from_stored_name(name: &String) -> (i: FinancialQueryIntent)
    ensures
        i == stored_intent(name@),
{
    if is_named(name, FinancialQueryIntent::PortfolioPerformance) {
        FinancialQueryIntent::PortfolioPerformance
    } else if is_named(name, FinancialQueryIntent::AssetAllocation) {
        FinancialQueryIntent::AssetAllocation
    } else if is_named(name, FinancialQueryIntent::InvestmentRecommendation) {
        FinancialQueryIntent::InvestmentRecommendation
    } else if is_named(name, FinancialQueryIntent::RiskAssessment) {
        FinancialQueryIntent::RiskAssessment
    } else if is_named(name, FinancialQueryIntent::MarketInformation) {
        FinancialQueryIntent::MarketInformation
    } else if is_named(name, FinancialQueryIntent::SustainableInvesting) {
        FinancialQueryIntent::SustainableInvesting
    } else if is_named(name, FinancialQueryIntent::RetirementPlanning) {
        FinancialQueryIntent::RetirementPlanning
    } else if is_named(name, FinancialQueryIntent::AccountInformation) {
        FinancialQueryIntent::AccountInformation
    } else if is_named(name, FinancialQueryIntent::TaxOptimization) {
        FinancialQueryIntent::TaxOptimization
    } else if is_named(name, FinancialQueryIntent::DebtManagement) {
        FinancialQueryIntent::DebtManagement
    } else if is_named(name, FinancialQueryIntent::Greeting) {
        FinancialQueryIntent::Greeting
    } else if is_named(name, FinancialQueryIntent::Farewell) {
        FinancialQueryIntent::Farewell
    } else if is_named(name, FinancialQueryIntent::Help) {
        FinancialQueryIntent::Help
    } else {
        FinancialQueryIntent::Unknown
    }
}

fn add_restored_turn(
    manager: &mut ConversationManager,
    query: String,
    intent: FinancialQueryIntent,
    confidence: u32,
    text: String,
) -> (ghost_turn: Ghost<ConversationTurn>)
    requires
        old(manager).wf(),
    ensures
        final(manager).wf(),
        is_restored_turn(ghost_turn@, (query@, intent, confidence, text@)),
        final(manager).history_view() == push_bounded(old(manager).history_view(), ghost_turn@),
        final(manager).state_view() == old(manager).state_view(),
        final(manager).goals_view() == old(manager).goals_view(),
        final(manager).id_view() == old(manager).id_view(),
        final(manager).client_id_view() == old(manager).client_id_view(),
{
    let response = NlpResponse {
        query: query.clone(),
        intent,
        confidence,
        processed_query: None,
        response_text: text,
        source: NlpResponseSource::Hybrid,
        confidence_level: NlpConfidenceLevel::Low,
        is_uncertain: false,
        explanation: None,
    };
    let t = manager.add_turn(query, response);
    let ghost turn = *t;
    Ghost(turn)
}

/// The conversation manager for a stored conversation: its identifier,
/// client and times are the stored ones; its history holds the last
/// `MAX_HISTORY_TURNS` turns restored from the messages (see
/// `restored_turns`); it greets and has no goals.
pub fn convert_from_stored(stored: Conversation) -> (m: ConversationManager)
    ensures
        m.wf(),
        m.id_view() == stored.id@,
        m.client_id_view() == stored.user_id@,
        m.times_view() == (stored.created_at, stored.updated_at),
        m.state_view() == ConversationState::Greeting,
        m.goals_view() == Seq::<ConversationGoal>::empty(),
        restored_history(m.history_view(), restored_turns(message_views(stored.messages@))),
{
    let mut manager = ConversationManager::new(stored.user_id.as_str());
    let ghost views = message_views(stored.messages@);
    let user = String::from_str("user");
    let assistant = String::from_str("assistant");
    let mut pending: Option<(String, Option<FinancialQueryIntent>, Option<u32>)> = None;
    let ghost mut done: Seq<RestoredTurn> = Seq::empty();
    assert(views.subrange(0, 0) =~= Seq::<MessageView>::empty());
    let mut i: usize = 0;
    while i < stored.messages.len()
        invariant
            i <= stored.messages@.len(),
            views == message_views(stored.messages@),
            user@ == "user"@,
            assistant@ == "assistant"@,
            manager.wf(),
            manager.client_id_view() == stored.user_id@,
            manager.state_view() == ConversationState::Greeting,
            manager.goals_view() == Seq::<ConversationGoal>::empty(),
            restore_messages(views.subrange(0, i as int)) == (done, pending_view(pending)),
            restored_history(manager.history_view(), done),
        decreases stored.messages@.len() - i,
    {
        let m = &stored.messages[i];
        assert(views.subrange(0, i + 1).drop_last() =~= views.subrange(0, i as int));
        assert(views.subrange(0, i + 1).last() == message_view(*m));
        if m.role == user {
            match pending {
                Some((q, _, _)) => {
                    let ghost hv = manager.history_view();
                    let g = add_restored_turn(&mut manager, q, FinancialQueryIntent::Unknown, 0, String::new());
                    proof {
                        lemma_restored_history_push(hv, done, g@, unanswered(q@));
                        done = done.push(unanswered(q@));
                    }
                },
                None => {},
            }
            let intent = match &m.intent {
                Some(name) => Some(intent_from_stored_name(name)),
                None => None,
            };
            pending = Some((m.content.clone(), intent, m.intent_confidence));
        } else if m.role == assistant {
            let ghost hv = manager.history_view();
            match pending {
                Some((q, intent, confidence)) => {
                    let ci = match intent {
                        Some(x) => x,
                        None => FinancialQueryIntent::Unknown,
                    };
                    let cc: u32 = match confidence {
                        Some(c) => c,
                        None => 0,
                    };
                    let ghost r: RestoredTurn = (q@, ci, cc, m.content@);
                    let g = add_restored_turn(&mut manager, q, ci, cc, m.content.clone());
                    proof {
                        lemma_restored_history_push(hv, done, g@, r);
                        done = done.push(r);
                    }
                },
                None => {
                    let ghost r: RestoredTurn = (Seq::empty(), FinancialQueryIntent::Unknown, 0, m.content@);
                    let g = add_restored_turn(&mut manager, String::new(), FinancialQueryIntent::Unknown, 0, m.content.clone());
                    proof {
                        lemma_restored_history_push(hv, done, g@, r);
                        done = done.push(r);
                    }
                },
            }
            pending = None;
        }
        i = i + 1;
    }
    assert(views.subrange(0, stored.messages@.len() as int) =~= views);
    match pending {
        Some((q, _, _)) => {
            let ghost hv = manager.history_view();
            let g = add_restored_turn(&mut manager, q, FinancialQueryIntent::Unknown, 0, String::new());
            proof {
                lemma_restored_history_push(hv, done, g@, unanswered(q@));
            }
        },
        None => {},
    }
    manager.set_identity(stored.id, stored.created_at, stored.updated_at);
    manager
}


/// The messages a turn is stored as: the user's query, with the name and
/// confidence of its processed intent where it has one, then the answer
/// where there is one.
pub open spec fn turn_message_views(t: ConversationTurn) -> Seq<MessageView> {
    let user: MessageView = ("user"@, t.query@, match t.processed_query {
        Some(pq) => Some(pq.intent.spec_name()),
        None => None,
    }, match t.processed_query {
        Some(pq) => Some(pq.intent_confidence),
        None => None,
    });
    match t.response {
        Some(r) => seq![user, ("assistant"@, r.response_text@, None::<Seq<char>>, None::<u32>)],
        None => seq![user],
    }
}

/// The messages a history is stored as, turn after turn.
pub open spec fn history_message_views(h: Seq<ConversationTurn>) -> Seq<MessageView>
    decreases h.len(),
{
    if h.len() == 0 {
        Seq::empty()
    } else {
        history_message_views(h.drop_last()) + turn_message_views(h.last())
    }
}

/// For each stored message, the turn it comes from.
pub open spec fn history_message_turns(h: Seq<ConversationTurn>) -> Seq<ConversationTurn>
    decreases h.len(),
{
    if h.len() == 0 {
        Seq::empty()
    } else {
        history_message_turns(h.drop_last()) + if h.last().response is Some {
            seq![h.last(), h.last()]
        } else {
            seq![h.last()]
        }
    }
}

/// The tag of an intent.
pub open spec fn intent_tag(i: FinancialQueryIntent) -> Seq<char> {
    "intent:"@ + i.spec_name()
}

/// The tags of the processed intents of a history, each once, in the order
/// they first occur.
pub open spec fn intent_tags(h: Seq<ConversationTurn>) -> Seq<Seq<char>>
    decreases h.len(),
{
    if h.len() == 0 {
        Seq::empty()
    } else {
        let prev = intent_tags(h.drop_last());
        match h.last().processed_query {
            Some(pq) => if prev.contains(intent_tag(pq.intent)) {
                prev
            } else {
                prev.push(intent_tag(pq.intent))
            },
            None => prev,
        }
    }
}

/// Within chrono's calendar, a stored message carries the time of its
/// turn cut to whole seconds.
pub open spec fn stamped_from(m: ConversationMessage, t: ConversationTurn) -> bool {
    let secs = t.timestamp.spec_seconds();
    -8_000_000_000_000 <= secs <= 8_000_000_000_000 ==> m.timestamp.micros == secs * 1_000_000
}

/// The message carries metadata, and it is empty.
pub open spec fn empty_metadata(m: ConversationMessage) -> bool {
    m.metadata matches Some(md) && md@.len() == 0
}

/// The text views of strings.
pub open spec fn string_views(v: Seq<String>) -> Seq<Seq<char>> {
    v.map_values(|s: String| s@)
}

fn holds_tag(tags: &Vec<String>, tag: &String) -> (b: bool)
    ensures
        b == string_views(tags@).contains(tag@),
{
    let mut i: usize = 0;
    while i < tags.len()
        invariant
            i <= tags@.len(),
            forall|k: int| 0 <= k < i ==> tags@[k]@ != tag@,
        decreases tags@.len() - i,
    {
        if tags[i] == *tag {
            assert(string_views(tags@)[i as int] == tag@);
            return true;
        }
        i = i + 1;
    }
    assert forall|k: int| 0 <= k < string_views(tags@).len() implies string_views(tags@)[k] != tag@ by {
        assert(tags@[k]@ != tag@);
    }
    false
}

fn stored_time(t: Timestamp) -> (r: Timestamp)
    ensures
        -8_000_000_000_000 <= t.spec_seconds() <= 8_000_000_000_000 ==> r.micros == t.spec_seconds() * 1_000_000,
{
    match from_whole_seconds(t.seconds()) {
        Some(s) => s,
        None => now(),
    }
}

fn stored_message(t: Timestamp, role: MessageRole, content: String, intent: Option<String>, confidence: Option<u32>)
    -> (m: ConversationMessage)
    ensures
        message_view(m) == (role.spec_label(), content@, match intent {
            Some(s) => Some(s@),
            None => None,
        }, confidence),
        -8_000_000_000_000 <= t.spec_seconds() <= 8_000_000_000_000 ==> m.timestamp.micros == t.spec_seconds() * 1_000_000,
        empty_metadata(m),
{
    ConversationMessage {
        id: new_id(),
        timestamp: stored_time(t),
        role: String::from_str(role.label()),
        content,
        intent,
        intent_confidence: confidence,
        metadata: Some(StringMap::new()),
    }
}

/// The conversation a manager is stored as: its identifier, client and
/// times; its history as messages (see `history_message_views`), each with
/// its turn's time (see `stamped_from`) and empty metadata; the tags of its
/// intents (see `intent_tags`); no summary and no metadata.
pub open spec fn stored_as(c: Conversation, manager: ConversationManager) -> bool {
    &&& c.id@ == manager.id_view()
    &&& c.user_id@ == manager.client_id_view()
    &&& (c.created_at, c.updated_at) == manager.times_view()
    &&& message_views(c.messages@) == history_message_views(manager.history_view())
    &&& c.messages@.len() == history_message_turns(manager.history_view()).len()
    &&& forall|k: int| 0 <= k < c.messages@.len() ==> stamped_from(#[trigger] c.messages@[k],
        history_message_turns(manager.history_view())[k])
    &&& forall|k: int| 0 <= k < c.messages@.len() ==> empty_metadata(#[trigger] c.messages@[k])
    &&& string_views(c.tags@) == intent_tags(manager.history_view())
    &&& c.summary is None
    &&& c.metadata@.len() == 0
}

/// The conversation a manager is stored as (see `stored_as`); each message
/// gets a fresh identifier.
pub fn convert_to_stored(manager: &ConversationManager) -> (c: Conversation)
    ensures
        stored_as(c, *manager),
{
    let h = manager.get_history();
    let ghost hv = h@;
    let mut messages: Vec<ConversationMessage> = Vec::new();
    let mut tags: Vec<String> = Vec::new();
    let mut k: usize = 0;
    assert(hv.subrange(0, 0) =~= Seq::<ConversationTurn>::empty());
    while k < h.len()
        invariant
            k <= hv.len(),
            hv == h@,
            message_views(messages@) == history_message_views(hv.subrange(0, k as int)),
            messages@.len() == history_message_turns(hv.subrange(0, k as int)).len(),
            forall|j: int| 0 <= j < messages@.len() ==> stamped_from(#[trigger] messages@[j],
                history_message_turns(hv.subrange(0, k as int))[j]),
            forall|j: int| 0 <= j < messages@.len() ==> empty_metadata(#[trigger] messages@[j]),
            string_views(tags@) == intent_tags(hv.subrange(0, k as int)),
        decreases hv.len() - k,
    {
        let turn = &h[k];
        let ghost prefix = hv.subrange(0, k as int);
        let ghost next = hv.subrange(0, k + 1);
        assert(next.drop_last() =~= prefix);
        assert(next.last() == *turn);
        let ghost before = messages@;
        let ghost sources = history_message_turns(prefix);
        let (intent, confidence) = match &turn.processed_query {
            Some(pq) => {
                let tag_text = {
                    let mut t = String::from_str("intent:");
                    t.append(pq.intent.name());
                    t
                };
                if !holds_tag(&tags, &tag_text) {
                    tags.push(tag_text);
                    assert(string_views(tags@) =~= intent_tags(prefix).push(intent_tag(pq.intent)));
                }
                (Some(String::from_str(pq.intent.name())), Some(pq.intent_confidence))
            },
            None => (None, None),
        };
        let user = stored_message(turn.timestamp, MessageRole::User, turn.query.clone(), intent, confidence);
        messages.push(user);
        match &turn.response {
            Some(r) => {
                let reply = stored_message(turn.timestamp, MessageRole::Assistant, r.response_text.clone(), None, None);
                messages.push(reply);
                assert(message_views(messages@) =~= message_views(before) + turn_message_views(*turn));
                assert(history_message_turns(next) =~= sources + seq![*turn, *turn]);
            },
            None => {
                assert(message_views(messages@) =~= message_views(before) + turn_message_views(*turn));
                assert(history_message_turns(next) =~= sources + seq![*turn]);
            },
        }
        assert(string_views(tags@) == intent_tags(next));
        k = k + 1;
    }
    assert(hv.subrange(0, hv.len() as int) =~= hv);
    let (created_at, updated_at) = manager.get_times();
    Conversation {
        id: manager.get_id().clone(),
        user_id: manager.get_client_id().clone(),
        messages,
        created_at,
        updated_at,
        tags,
        summary: None,
        metadata: StringMap::new(),
    }
}


/// What a turn becomes once stored and read back: an answered turn keeps
/// its query and answer text, with its processed intent where the intent's
/// name is read back (see `stored_intent`) and its confidence, `Unknown`
/// and 0 where it had no processed query; an unanswered turn is
/// unanswered.
pub open spec fn round_trip_turn(t: ConversationTurn) -> RestoredTurn {
    match t.response {
        Some(r) => (t.query@, match t.processed_query {
            Some(pq) => stored_intent(pq.intent.spec_name()),
            None => FinancialQueryIntent::Unknown,
        }, match t.processed_query {
            Some(pq) => pq.intent_confidence,
            None => 0,
        }, r.response_text@),
        None => unanswered(t.query@),
    }
}

/// The reading state after the messages of the first `j` turns.
spec fn state_after(h: Seq<ConversationTurn>, j: int) -> (Seq<RestoredTurn>, Option<PendingQuery>) {
    let done = h.subrange(0, j).map_values(|t: ConversationTurn| round_trip_turn(t));
    if j > 0 && h[j - 1].response is None {
        (done.drop_last(), Some((h[j - 1].query@, match h[j - 1].processed_query {
            Some(pq) => Some(stored_intent(pq.intent.spec_name())),
            None => None,
        }, match h[j - 1].processed_query {
            Some(pq) => Some(pq.intent_confidence),
            None => None,
        })))
    } else {
        (done, None)
    }
}

proof fn lemma_restore_append_one(a: Seq<MessageView>, u: MessageView)
    ensures
        restore_messages(a + seq![u]) == restore_step(restore_messages(a), u),
{
    assert((a + seq![u]).drop_last() =~= a);
    assert((a + seq![u]).last() == u);
}

proof fn lemma_restore_prefix(h: Seq<ConversationTurn>, j: int)
    requires
        0 <= j <= h.len(),
    ensures
        restore_messages(history_message_views(h.subrange(0, j))) == state_after(h, j),
    decreases j,
{
    if j == 0 {
        assert(h.subrange(0, 0) =~= Seq::<ConversationTurn>::empty());
        assert(h.subrange(0, 0).map_values(|t: ConversationTurn| round_trip_turn(t)) =~= Seq::<RestoredTurn>::empty());
    } else {
        lemma_restore_prefix(h, j - 1);
        let prev = h.subrange(0, j - 1);
        let cur = h.subrange(0, j);
        assert(cur.drop_last() =~= prev);
        let t = h[j - 1];
        assert(cur.last() == t);
        let a = history_message_views(prev);
        let user: MessageView = ("user"@, t.query@, match t.processed_query {
            Some(pq) => Some(pq.intent.spec_name()),
            None => None,
        }, match t.processed_query {
            Some(pq) => Some(pq.intent_confidence),
            None => None,
        });
        let done_prev = prev.map_values(|x: ConversationTurn| round_trip_turn(x));
        let done_cur = cur.map_values(|x: ConversationTurn| round_trip_turn(x));
        assert(done_cur =~= done_prev.push(round_trip_turn(t)));
        lemma_restore_append_one(a, user);
        let s1 = restore_step(restore_messages(a), user);
        assert(s1.0 =~= done_prev) by {
            if j - 1 > 0 && h[j - 2].response is None {
                assert(prev.map_values(|x: ConversationTurn| round_trip_turn(x)) =~= done_prev.drop_last().push(
                    unanswered(h[j - 2].query@)));
            }
        }
        match t.response {
            Some(r) => {
                let reply: MessageView = ("assistant"@, r.response_text@, None::<Seq<char>>, None::<u32>);
                assert(history_message_views(cur) =~= (a + seq![user]) + seq![reply]);
                lemma_restore_append_one(a + seq![user], reply);
                assert("assistant"@ != "user"@) by {
                    reveal_strlit("user");
                    reveal_strlit("assistant");
                    assert("assistant"@.len() != "user"@.len());
                }
            },
            None => {
                assert(history_message_views(cur) =~= a + seq![user]);
                assert(done_cur.drop_last() =~= done_prev);
            },
        }
    }
}

/// Storing a history and reading it back gives each turn back as
/// `round_trip_turn` says: the queries and answer texts come back in
/// order, with the intents whose names are read back.
pub proof fn lemma_store_restore_round_trip(h: Seq<ConversationTurn>)
    ensures
        restored_turns(history_message_views(h)) == h.map_values(|t: ConversationTurn| round_trip_turn(t)),
{
    lemma_restore_prefix(h, h.len() as int);
    assert(h.subrange(0, h.len() as int) =~= h);
    let done = h.map_values(|t: ConversationTurn| round_trip_turn(t));
    if h.len() > 0 && h[h.len() - 1].response is None {
        assert(done =~= done.drop_last().push(unanswered(h[h.len() - 1].query@)));
    }
}

/// A manager stored (see `convert_to_stored`) and read back (see
/// `convert_from_stored`) holds as many turns as before, each with the
/// query it had and the values `round_trip_turn` gives.
pub proof fn lemma_manager_round_trip(m: ConversationManager, c: Conversation, restored: ConversationManager)
    requires
        m.wf(),
        stored_as(c, m),
        restored_history(restored.history_view(), restored_turns(message_views(c.messages@))),
    ensures
        restored.history_view().len() == m.history_view().len(),
        forall|k: int| 0 <= k < m.history_view().len() ==> is_restored_turn(
            #[trigger] restored.history_view()[k], round_trip_turn(m.history_view()[k])),
{
    lemma_store_restore_round_trip(m.history_view());
}


/// A conversation manager with the record of whether its conversation has
/// been written to the store. Each change returns the conversation to
/// write; the caller writes it and then marks the manager persisted.
pub struct PersistentConversationManager {
    manager: ConversationManager,
    persisted: bool,
}

impl PersistentConversationManager {
    /// The conversation manager.
    pub closed spec fn manager_view(&self) -> ConversationManager {
        self.manager
    }

    /// Whether the conversation has been written.
    pub closed spec fn persisted_view(&self) -> bool {
        self.persisted
    }

    /// The manager's history is within bounds.
    pub open spec fn wf(&self) -> bool {
        self.manager_view().wf()
    }

    /// A new conversation with a client, not yet written.
    pub fn new(client_id: &str) -> (p: Self)
        ensures
            p.wf(),
            !p.persisted_view(),
            p.manager_view().client_id_view() == client_id@,
            p.manager_view().history_view() == Seq::<ConversationTurn>::empty(),
            p.manager_view().goals_view() == Seq::<ConversationGoal>::empty(),
            p.manager_view().state_view() == ConversationState::Greeting,
    {
        Self { manager: ConversationManager::new(client_id), persisted: false }
    }

    /// The manager for a conversation read from the store (see
    /// `convert_from_stored`), marked as written.
    pub fn load(stored: Conversation) -> (p: Self)
        ensures
            p.wf(),
            p.persisted_view(),
            p.manager_view().id_view() == stored.id@,
            p.manager_view().client_id_view() == stored.user_id@,
            p.manager_view().times_view() == (stored.created_at, stored.updated_at),
            p.manager_view().state_view() == ConversationState::Greeting,
            p.manager_view().goals_view() == Seq::<ConversationGoal>::empty(),
            restored_history(p.manager_view().history_view(), restored_turns(message_views(stored.messages@))),
    {
        Self { manager: convert_from_stored(stored), persisted: true }
    }

    /// The conversation manager.
    pub fn get_manager(&self) -> (m: &ConversationManager)
        ensures
            *m == self.manager_view(),
    {
        &self.manager
    }

    /// The conversation manager, to change it.
    pub fn get_manager_mut(&mut self) -> (m: &mut ConversationManager)
        ensures
            *m == old(self).manager_view(),
            final(self).manager_view() == *final(m),
            final(self).persisted_view() == old(self).persisted_view(),
    {
        &mut self.manager
    }

    /// Whether the conversation has been written.
    pub fn is_persisted(&self) -> (b: bool)
        ensures
            b == self.persisted_view(),
    {
        self.persisted
    }

    /// Records that the conversation has been written.
    pub fn mark_persisted(&mut self)
        ensures
            final(self).persisted_view(),
            final(self).manager_view() == old(self).manager_view(),
    {
        self.persisted = true;
    }

    /// The conversation to write (see `stored_as`).
    pub fn to_stored(&self) -> (c: Conversation)
        ensures
            stored_as(c, self.manager_view()),
    {
        convert_to_stored(&self.manager)
    }

    /// Adds a turn for a user query (see `ConversationManager::add_user_query`)
    /// and returns the conversation to write.
    pub fn add_user_query(&mut self, query: &str) -> (c: Conversation)
        requires
            old(self).wf(),
        ensures
            final(self).wf(),
            final(self).persisted_view() == old(self).persisted_view(),
            final(self).manager_view().history_view().len() > 0,
            final(self).manager_view().history_view() == push_bounded(old(self).manager_view().history_view(),
                final(self).manager_view().history_view().last()),
            final(self).manager_view().history_view().last().query@ == query@,
            final(self).manager_view().history_view().last().processed_query is None,
            final(self).manager_view().history_view().last().response is None,
            final(self).manager_view().state_view() == old(self).manager_view().state_view(),
            final(self).manager_view().goals_view() == old(self).manager_view().goals_view(),
            stored_as(c, final(self).manager_view()),
    {
        let _ = self.manager.add_user_query(query);
        convert_to_stored(&self.manager)
    }

    /// Sets the processed query of the latest turn (see
    /// `ConversationManager::update_current_turn_with_processed_query`) and
    /// returns the conversation to write; fails, changing nothing, when
    /// there is no turn.
    pub fn update_current_turn_with_processed_query(&mut self, processed_query: ProcessedQuery)
        -> (r: Result<Conversation, ConversationError>)
        requires
            old(self).wf(),
        ensures
            final(self).wf(),
            final(self).persisted_view() == old(self).persisted_view(),
            old(self).manager_view().history_view().len() == 0 ==> r == Err::<Conversation, ConversationError>(
                ConversationError::NoTurns) && final(self).manager_view().history_view() == old(self).manager_view().history_view(),
            old(self).manager_view().history_view().len() > 0 ==> r is Ok
                && final(self).manager_view().history_view() == old(self).manager_view().history_view().update(
                    old(self).manager_view().history_view().len() - 1,
                    ConversationTurn { processed_query: Some(processed_query), ..old(self).manager_view().history_view().last() })
                && stored_as(r->Ok_0, final(self).manager_view()),
    {
        match self.manager.update_current_turn_with_processed_query(processed_query) {
            Ok(()) => Ok(convert_to_stored(&self.manager)),
            Err(e) => Err(e),
        }
    }

    /// Sets the response of the latest turn (see
    /// `ConversationManager::update_current_turn_with_response`) and returns
    /// the conversation to write; fails, changing nothing, when there is no
    /// turn.
    pub fn update_current_turn_with_response(&mut self, response: NlpResponse) -> (r: Result<Conversation, ConversationError>)
        requires
            old(self).wf(),
        ensures
            final(self).wf(),
            final(self).persisted_view() == old(self).persisted_view(),
            old(self).manager_view().history_view().len() == 0 ==> r == Err::<Conversation, ConversationError>(
                ConversationError::NoTurns) && final(self).manager_view().history_view() == old(self).manager_view().history_view(),
            old(self).manager_view().history_view().len() > 0 ==> r is Ok
                && final(self).manager_view().history_view() == old(self).manager_view().history_view().update(
                    old(self).manager_view().history_view().len() - 1,
                    ConversationTurn { response: Some(response), ..old(self).manager_view().history_view().last() })
                && stored_as(r->Ok_0, final(self).manager_view()),
    {
        match self.manager.update_current_turn_with_response(response) {
            Ok(()) => Ok(convert_to_stored(&self.manager)),
            Err(e) => Err(e),
        }
    }

    /// Adds a goal (see `ConversationManager::add_goal`) and returns the
    /// conversation to write.
    pub fn add_goal(&mut self, goal_type: ConversationGoalType) -> (c: Conversation)
        requires
            old(self).wf(),
        ensures
            final(self).wf(),
            final(self).persisted_view() == old(self).persisted_view(),
            final(self).manager_view().goals_view().len() == old(self).manager_view().goals_view().len() + 1,
            final(self).manager_view().goals_view().last().goal_type == goal_type,
            final(self).manager_view().goals_view().last().status == GoalStatus::NotStarted,
            final(self).manager_view().history_view() == old(self).manager_view().history_view(),
            stored_as(c, final(self).manager_view()),
    {
        let _ = self.manager.add_goal(goal_type);
        convert_to_stored(&self.manager)
    }
}

} // verus!
