//! Summaries of conversations written by a language model: the prompts
//! sent to it, the reading of its answers, and the assembly of the summary.
//! The model is called by the caller.

use vstd::prelude::*;
use crate::json::{JsonValue, json_field, get_field, json_document, parse_json};
use crate::string_map::{StringMap, stored};
use crate::text::{lowercase, is_substring, to_lowercase, str_contains};
use super::conversation_storage::{Conversation, ConversationMessage};
use super::conversation_summary::{ConversationSummary, SummaryType, FinancialEntity, FinancialEntityType,
    FinancialDecision, DecisionType, DecisionStatus, ConversationTopic};

verus! {

/// The brief prompt before the conversation text.
pub const BRIEF_HEAD: &'static str = "You are an expert financial advisor assistant. Your task is to create a very brief summary (1-2 sentences) of a conversation between a financial advisor and a client.\n\nFocus on:\n1. Key financial details (accounts, assets, liabilities, income, expenses)\n2. Financial goals mentioned\n3. Decisions made or actions agreed upon\n\nConversation:\n";

/// The brief prompt after the conversation text.
pub const BRIEF_TAIL: &'static str = "\n\nPlease provide a brief summary that captures the essential financial information and context.";

/// The standard prompt before the conversation text.
pub const STANDARD_HEAD: &'static str = "You are an expert financial advisor assistant. Your task is to create a concise summary of a conversation between a financial advisor and a client.\n\nFocus on:\n1. Key financial details (accounts, assets, liabilities, income, expenses)\n2. Financial goals mentioned\n3. Decisions made or actions agreed upon\n4. Important questions or concerns raised\n\nConversation:\n";

/// The standard prompt after the conversation text.
pub const STANDARD_TAIL: &'static str = "\n\nPlease provide a summary that captures the essential financial information and context.";

/// The detailed prompt before the conversation text.
pub const DETAILED_HEAD: &'static str = "You are an expert financial advisor assistant. Your task is to create a detailed summary of a conversation between a financial advisor and a client.\n\nFocus on:\n1. Key financial details (accounts, assets, liabilities, income, expenses)\n2. Financial goals mentioned\n3. Decisions made or actions agreed upon\n4. Important questions or concerns raised\n5. Timeline of discussion topics\n6. All significant financial information mentioned\n\nConversation:\n";

/// The detailed prompt after the conversation text.
pub const DETAILED_TAIL: &'static str = "\n\nPlease provide a detailed summary that captures all important financial information and context.";

/// The entity extraction prompt before the conversation text.
pub const ENTITY_EXTRACTION_HEAD: &'static str = "You are an expert financial advisor assistant. Your task is to extract key financial entities from a conversation between a financial advisor and a client.\n\nConversation:\n";

/// The entity extraction prompt after the conversation text.
pub const ENTITY_EXTRACTION_TAIL: &'static str = "\n\nPlease extract and list all financial entities mentioned in the conversation. For each entity, provide:\n1. Entity type (Account, Asset, Liability, Goal, Income, Expense, Tax, Insurance, Investment, Retirement, Other)\n2. Entity name or identifier\n3. Any attributes mentioned (amount, rate, term, etc.)\n4. Estimated importance (High, Medium, Low)\n\nFormat your response as a JSON array of objects with the following structure:\n[\n  {\n    \"entity_type\": \"Account\",\n    \"name\": \"401(k)\",\n    \"attributes\": {\n      \"balance\": \"$250,000\",\n      \"contribution_rate\": \"10%\"\n    },\n    \"importance\": \"High\"\n  }\n]";

/// The decision extraction prompt before the conversation text.
pub const DECISION_EXTRACTION_HEAD: &'static str = "You are an expert financial advisor assistant. Your task is to extract key financial decisions from a conversation between a financial advisor and a client.\n\nConversation:\n";

/// The decision extraction prompt after the conversation text.
pub const DECISION_EXTRACTION_TAIL: &'static str = "\n\nPlease extract and list all financial decisions mentioned in the conversation. For each decision, provide:\n1. Decision type (Investment, Withdrawal, AssetAllocation, TaxStrategy, RetirementPlanning, InsuranceChange, BudgetAdjustment, DebtManagement, Other)\n2. Description of the decision\n3. Status (Proposed, Agreed, Rejected, Pending, Completed)\n4. Related entities\n5. Estimated importance (High, Medium, Low)\n\nFormat your response as a JSON array of objects with the following structure:\n[\n  {\n    \"decision_type\": \"Investment\",\n    \"description\": \"Increase 401(k) contribution from 6% to 10%\",\n    \"status\": \"Agreed\",\n    \"related_entities\": [\"401(k)\"],\n    \"importance\": \"High\"\n  }\n]";

/// The topic extraction prompt before the conversation text.
pub const TOPIC_EXTRACTION_HEAD: &'static str = "You are an expert financial advisor assistant. Your task is to identify the main topics discussed in a conversation between a financial advisor and a client.\n\nConversation:\n";

/// The topic extraction prompt after the conversation text.
pub const TOPIC_EXTRACTION_TAIL: &'static str = "\n\nPlease identify and list all financial topics discussed in the conversation. For each topic, provide:\n1. Topic name\n2. Confidence level (High, Medium, Low)\n3. Message IDs where this topic was discussed (if available)\n\nFormat your response as a JSON array of objects with the following structure:\n[\n  {\n    \"name\": \"Retirement Planning\",\n    \"confidence\": \"High\",\n    \"message_ids\": []\n  }\n]";

/// The topic summary prompt before the topics.
pub const TOPIC_SUMMARY_HEAD: &'static str = "You are an expert financial advisor assistant. Your task is to create a focused summary of a conversation between a financial advisor and a client, specifically about the following topics: ";

/// The topic summary prompt between the topics and the conversation text.
pub const TOPIC_SUMMARY_MIDDLE: &'static str = ".\n\nFocus on:\n1. Information related to these specific topics\n2. Financial details relevant to these topics\n3. Decisions or actions related to these topics\n\nConversation:\n";

/// The topic summary prompt after the conversation text.
pub const TOPIC_SUMMARY_TAIL: &'static str = "\n\nPlease provide a focused summary that captures the essential information about these topics.";

/// Why a summary could not be produced.
#[derive(Debug, Clone, Copy, PartialEq, Eq, Structural)]
pub enum SummaryGenerationError {
    /// The conversation has no message.
    NoMessages,
    /// No prompt is kept for summaries focused on a topic.
    TopicTemplateNotFound,
    /// The model's answer is not a JSON array.
    AnswerNotJsonArray,
    /// The summary identifier holds no `-`.
    InvalidSummaryId,
}

impl SummaryGenerationError {
    /// The error's message.
    pub open spec fn spec_message(self) -> Seq<char> {
        match self {
            SummaryGenerationError::NoMessages => "No messages found for conversation"@,
            SummaryGenerationError::TopicTemplateNotFound => "Topic summary template not found"@,
            SummaryGenerationError::AnswerNotJsonArray => "Failed to parse the model's answer as a JSON array"@,
            SummaryGenerationError::InvalidSummaryId => "Invalid summary ID format"@,
        }
    }

    /// The error's message.
    pub fn message(&self) -> (s: &'static str)
        ensures
            s@ == self.spec_message(),
    {
        match self {
            SummaryGenerationError::NoMessages => "No messages found for conversation",
            SummaryGenerationError::TopicTemplateNotFound => "Topic summary template not found",
            SummaryGenerationError::AnswerNotJsonArray => "Failed to parse the model's answer as a JSON array",
            SummaryGenerationError::InvalidSummaryId => "Invalid summary ID format",
        }
    }
}

/// The messages of a conversation as the prompts show them: each as its
/// role, `: ` and its content, separated by blank lines.
pub open spec fn prompt_messages(ms: Seq<ConversationMessage>) -> Seq<char>
    decreases ms.len(),
{
    if ms.len() == 0 {
        Seq::empty()
    } else if ms.len() == 1 {
        ms[0].role@ + ": "@ + ms[0].content@
    } else {
        prompt_messages(ms.drop_last()) + "\n\n"@ + ms.last().role@ + ": "@ + ms.last().content@
    }
}

/// The conversation's messages as the prompts show them (see
/// `prompt_messages`); refused when there is none.
pub fn format_conversation_text(conversation: &Conversation) -> (r: Result<String, SummaryGenerationError>)
    ensures
        conversation.messages@.len() == 0 ==> r == Err::<String, SummaryGenerationError>(SummaryGenerationError::NoMessages),
        conversation.messages@.len() > 0 ==> (r matches Ok(s) && s@ == prompt_messages(conversation.messages@)),
{
    let ms = &conversation.messages;
    if ms.len() == 0 {
        return Err(SummaryGenerationError::NoMessages);
    }
    let mut s = String::new();
    s.append(ms[0].role.as_str());
    s.append(": ");
    s.append(ms[0].content.as_str());
    let mut i: usize = 1;
    assert(ms@.subrange(0, 1).len() == 1);
    assert(s@ == prompt_messages(ms@.subrange(0, 1)));
    while i < ms.len()
        invariant
            1 <= i <= ms@.len(),
            s@ == prompt_messages(ms@.subrange(0, i as int)),
        decreases ms@.len() - i,
    {
        assert(ms@.subrange(0, i + 1).drop_last() =~= ms@.subrange(0, i as int));
        s.append("\n\n");
        s.append(ms[i].role.as_str());
        s.append(": ");
        s.append(ms[i].content.as_str());
        i = i + 1;
    }
    assert(ms@.subrange(0, ms@.len() as int) =~= ms@);
    Ok(s)
}

/// The prompt asking for a summary of the given type around the
/// conversation text; no prompt is kept for summaries focused on a topic.
pub open spec fn summary_prompt_text(summary_type: SummaryType, text: Seq<char>) -> Option<Seq<char>> {
    match summary_type {
        SummaryType::Brief => Some(BRIEF_HEAD@ + text + BRIEF_TAIL@),
        SummaryType::Standard => Some(STANDARD_HEAD@ + text + STANDARD_TAIL@),
        SummaryType::Detailed => Some(DETAILED_HEAD@ + text + DETAILED_TAIL@),
        SummaryType::TopicFocused(_) => None,
    }
}

fn surround(head: &str, text: &str, tail: &str) -> (s: String)
    ensures
        s@ == head@ + text@ + tail@,
{
    let mut s = String::from_str(head);
    s.append(text);
    s.append(tail);
    s
}

/// The prompt asking for a summary of the given type (see
/// `summary_prompt_text`).
pub fn summary_prompt(summary_type: &SummaryType, text: &str) -> (r: Result<String, SummaryGenerationError>)
    ensures
        match summary_prompt_text(*summary_type, text@) {
            Some(p) => r matches Ok(s) && s@ == p,
            None => r == Err::<String, SummaryGenerationError>(SummaryGenerationError::TopicTemplateNotFound),
        },
{
    match summary_type {
        SummaryType::Brief => Ok(surround(BRIEF_HEAD, text, BRIEF_TAIL)),
        SummaryType::Standard => Ok(surround(STANDARD_HEAD, text, STANDARD_TAIL)),
        SummaryType::Detailed => Ok(surround(DETAILED_HEAD, text, DETAILED_TAIL)),
        SummaryType::TopicFocused(_) => Err(SummaryGenerationError::TopicTemplateNotFound),
    }
}

/// The prompt asking for the entities of the conversation text.
pub fn entity_extraction_prompt(text: &str) -> (s: String)
    ensures
        s@ == ENTITY_EXTRACTION_HEAD@ + text@ + ENTITY_EXTRACTION_TAIL@,
{
    surround(ENTITY_EXTRACTION_HEAD, text, ENTITY_EXTRACTION_TAIL)
}

/// The prompt asking for the decisions of the conversation text.
pub fn decision_extraction_prompt(text: &str) -> (s: String)
    ensures
        s@ == DECISION_EXTRACTION_HEAD@ + text@ + DECISION_EXTRACTION_TAIL@,
{
    surround(DECISION_EXTRACTION_HEAD, text, DECISION_EXTRACTION_TAIL)
}

/// The prompt asking for the topics of the conversation text.
pub fn topic_extraction_prompt(text: &str) -> (s: String)
    ensures
        s@ == TOPIC_EXTRACTION_HEAD@ + text@ + TOPIC_EXTRACTION_TAIL@,
{
    surround(TOPIC_EXTRACTION_HEAD, text, TOPIC_EXTRACTION_TAIL)
}

/// The topics joined with `, `.
pub open spec fn joined_topics(topics: Seq<String>) -> Seq<char>
    decreases topics.len(),
{
    if topics.len() == 0 {
        Seq::empty()
    } else if topics.len() == 1 {
        topics[0]@
    } else {
        joined_topics(topics.drop_last()) + ", "@ + topics.last()@
    }
}

/// The prompt asking for a summary focused on the topics.
pub fn topic_summary_prompt(topics: &[String], text: &str) -> (s: String)
    ensures
        s@ == TOPIC_SUMMARY_HEAD@ + joined_topics(topics@) + TOPIC_SUMMARY_MIDDLE@ + text@ + TOPIC_SUMMARY_TAIL@,
{
    let mut joined = String::new();
    let mut i: usize = 0;
    while i < topics.len()
        invariant
            i <= topics@.len(),
            joined@ == joined_topics(topics@.subrange(0, i as int)),
        decreases topics@.len() - i,
    {
        assert(topics@.subrange(0, i + 1).drop_last() =~= topics@.subrange(0, i as int));
        if i > 0 {
            joined.append(", ");
        }
        joined.append(topics[i].as_str());
        i = i + 1;
    }
    assert(topics@.subrange(0, topics@.len() as int) =~= topics@);
    let mut s = String::from_str(TOPIC_SUMMARY_HEAD);
    s.append(joined.as_str());
    s.append(TOPIC_SUMMARY_MIDDLE);
    s.append(text);
    s.append(TOPIC_SUMMARY_TAIL);
    s
}


/// The value at a key of an object (`null` when there is none).
pub open spec fn json_index(v: JsonValue, key: Seq<char>) -> JsonValue {
    match json_field(v, key) {
        Some(f) => f,
        None => JsonValue::Null,
    }
}

/// The text of a string value.
pub open spec fn text_of(v: JsonValue) -> Option<Seq<char>> {
    match v {
        JsonValue::Text(s) => Some(s@),
        _ => None,
    }
}

/// An importance or confidence level in thousandths: `High` 900, `Medium`
/// 600, `Low` 300, anything else 500.
pub open spec fn level_thousandths(v: JsonValue) -> u32 {
    match text_of(v) {
        Some(t) => if t == "High"@ {
            900
        } else if t == "Medium"@ {
            600
        } else if t == "Low"@ {
            300
        } else {
            500
        },
        None => 500,
    }
}

/// The string values of an array, in order (other values are left out).
pub open spec fn texts_in(vs: Seq<JsonValue>) -> Seq<Seq<char>>
    decreases vs.len(),
{
    if vs.len() == 0 {
        Seq::empty()
    } else {
        match vs.last() {
            JsonValue::Text(t) => texts_in(vs.drop_last()).push(t@),
            _ => texts_in(vs.drop_last()),
        }
    }
}

/// The string values of a value that is an array (nothing otherwise).
pub open spec fn array_texts(v: JsonValue) -> Seq<Seq<char>> {
    match v {
        JsonValue::Array(vs) => texts_in(vs@),
        _ => Seq::empty(),
    }
}

/// The string fields of an object, stored in order (a later field replaces
/// an earlier one with its key).
pub open spec fn text_fields(fields: Seq<(String, JsonValue)>) -> Seq<(Seq<char>, Seq<char>)>
    decreases fields.len(),
{
    if fields.len() == 0 {
        Seq::empty()
    } else {
        match fields.last().1 {
            JsonValue::Text(t) => stored(text_fields(fields.drop_last()), fields.last().0@, t@),
            _ => text_fields(fields.drop_last()),
        }
    }
}

/// The string fields of a value that is an object (nothing otherwise).
pub open spec fn object_texts(v: JsonValue) -> Seq<(Seq<char>, Seq<char>)> {
    match v {
        JsonValue::Object(fields) => text_fields(fields@),
        _ => Seq::empty(),
    }
}

/// The views of strings.
pub open spec fn strings_view(v: Seq<String>) -> Seq<Seq<char>> {
    v.map_values(|s: String| s@)
}

/// The entity type a name stands for: a known type, or `Other` with the
/// name.
pub open spec fn entity_type_for(t: FinancialEntityType, name: Seq<char>) -> bool {
    if name == "Account"@ {
        t == FinancialEntityType::Account
    } else if name == "Asset"@ {
        t == FinancialEntityType::Asset
    } else if name == "Liability"@ {
        t == FinancialEntityType::Liability
    } else if name == "Goal"@ {
        t == FinancialEntityType::Goal
    } else if name == "Income"@ {
        t == FinancialEntityType::Income
    } else if name == "Expense"@ {
        t == FinancialEntityType::Expense
    } else if name == "Tax"@ {
        t == FinancialEntityType::Tax
    } else if name == "Insurance"@ {
        t == FinancialEntityType::Insurance
    } else if name == "Investment"@ {
        t == FinancialEntityType::Investment
    } else if name == "Retirement"@ {
        t == FinancialEntityType::Retirement
    } else {
        t matches FinancialEntityType::Other(s) && s@ == name
    }
}

/// The decision type a name stands for: a known type, or `Other` with the
/// name.
pub open spec fn decision_type_for(t: DecisionType, name: Seq<char>) -> bool {
    if name == "Investment"@ {
        t == DecisionType::Investment
    } else if name == "Withdrawal"@ {
        t == DecisionType::Withdrawal
    } else if name == "AssetAllocation"@ {
        t == DecisionType::AssetAllocation
    } else if name == "TaxStrategy"@ {
        t == DecisionType::TaxStrategy
    } else if name == "RetirementPlanning"@ {
        t == DecisionType::RetirementPlanning
    } else if name == "InsuranceChange"@ {
        t == DecisionType::InsuranceChange
    } else if name == "BudgetAdjustment"@ {
        t == DecisionType::BudgetAdjustment
    } else if name == "DebtManagement"@ {
        t == DecisionType::DebtManagement
    } else {
        t matches DecisionType::Other(s) && s@ == name
    }
}

/// The status a value names: one of the statuses by name, `Proposed`
/// otherwise.
pub open spec fn status_for(v: JsonValue) -> DecisionStatus {
    match text_of(v) {
        Some(t) => if t == "Agreed"@ {
            DecisionStatus::Agreed
        } else if t == "Rejected"@ {
            DecisionStatus::Rejected
        } else if t == "Pending"@ {
            DecisionStatus::Pending
        } else if t == "Completed"@ {
            DecisionStatus::Completed
        } else {
            DecisionStatus::Proposed
        },
        None => DecisionStatus::Proposed,
    }
}

/// An entity of the answer is read when it has a string type and a string
/// name.
pub open spec fn entity_readable(j: JsonValue) -> bool {
    text_of(json_index(j, "entity_type"@)) is Some && text_of(json_index(j, "name"@)) is Some
}

/// The entity read from an entity of the answer: its type, name, string
/// attributes and importance level.
pub open spec fn entity_read(e: FinancialEntity, j: JsonValue) -> bool {
    &&& entity_type_for(e.entity_type, text_of(json_index(j, "entity_type"@))->0)
    &&& e.name@ == text_of(json_index(j, "name"@))->0
    &&& e.attributes.wf()
    &&& e.attributes@ == object_texts(json_index(j, "attributes"@))
    &&& e.importance == level_thousandths(json_index(j, "importance"@))
}

/// A decision of the answer is read when it has a string type and a
/// string description.
pub open spec fn decision_readable(j: JsonValue) -> bool {
    text_of(json_index(j, "decision_type"@)) is Some && text_of(json_index(j, "description"@)) is Some
}

/// The decision read from a decision of the answer.
pub open spec fn decision_read(d: FinancialDecision, j: JsonValue) -> bool {
    &&& decision_type_for(d.decision_type, text_of(json_index(j, "decision_type"@))->0)
    &&& d.description@ == text_of(json_index(j, "description"@))->0
    &&& d.status == status_for(json_index(j, "status"@))
    &&& strings_view(d.related_entities@) == array_texts(json_index(j, "related_entities"@))
    &&& d.importance == level_thousandths(json_index(j, "importance"@))
}

/// A topic of the answer is read when it has a string name.
pub open spec fn topic_readable(j: JsonValue) -> bool {
    text_of(json_index(j, "name"@)) is Some
}

/// The topic read from a topic of the answer.
pub open spec fn topic_read(t: ConversationTopic, j: JsonValue) -> bool {
    &&& t.name@ == text_of(json_index(j, "name"@))->0
    &&& t.confidence == level_thousandths(json_index(j, "confidence"@))
    &&& strings_view(t.message_ids@) == array_texts(json_index(j, "message_ids"@))
}

fn index<'a>(v: &'a JsonValue, key: &str) -> (r: Option<&'a JsonValue>)
    ensures
        match json_field(*v, key@) {
            Some(f) => r is Some && *r->0 == f,
            None => r is None,
        },
{
    get_field(v, key)
}

fn text_at<'a>(v: &'a JsonValue, key: &str) -> (r: Option<&'a String>)
    ensures
        match text_of(json_index(*v, key@)) {
            Some(t) => r is Some && r->0@ == t,
            None => r is None,
        },
{
    match index(v, key) {
        Some(JsonValue::Text(s)) => Some(s),
        _ => None,
    }
}

fn level_at(v: &JsonValue, key: &str) -> (l: u32)
    ensures
        l == level_thousandths(json_index(*v, key@)),
{
    match text_at(v, key) {
        Some(t) => {
            if crate::json::str_equals(t.as_str(), "High") {
                900
            } else if crate::json::str_equals(t.as_str(), "Medium") {
                600
            } else if crate::json::str_equals(t.as_str(), "Low") {
                300
            } else {
                500
            }
        },
        None => 500,
    }
}

fn texts_at(v: &JsonValue, key: &str) -> (r: Vec<String>)
    ensures
        strings_view(r@) == array_texts(json_index(*v, key@)),
{
    let mut r: Vec<String> = Vec::new();
    match index(v, key) {
        Some(JsonValue::Array(items)) => {
            let mut i: usize = 0;
            assert(items@.subrange(0, 0) =~= Seq::<JsonValue>::empty());
            assert(strings_view(r@) =~= Seq::<Seq<char>>::empty());
            while i < items.len()
                invariant
                    i <= items@.len(),
                    strings_view(r@) == texts_in(items@.subrange(0, i as int)),
                decreases items@.len() - i,
            {
                assert(items@.subrange(0, i + 1).drop_last() =~= items@.subrange(0, i as int));
                match &items[i] {
                    JsonValue::Text(t) => {
                        let ghost before = r@;
                        r.push(t.clone());
                        assert(strings_view(r@) =~= strings_view(before).push(t@));
                    },
                    _ => {},
                }
                i = i + 1;
            }
            assert(items@.subrange(0, items@.len() as int) =~= items@);
        },
        _ => {
            assert(strings_view(r@) =~= Seq::<Seq<char>>::empty());
        },
    }
    r
}

fn attributes_at(v: &JsonValue, key: &str) -> (m: StringMap)
    ensures
        m.wf(),
        m@ == object_texts(json_index(*v, key@)),
{
    let mut m = StringMap::new();
    match index(v, key) {
        Some(JsonValue::Object(fields)) => {
            let mut i: usize = 0;
            assert(fields@.subrange(0, 0) =~= Seq::<(String, JsonValue)>::empty());
            while i < fields.len()
                invariant
                    i <= fields@.len(),
                    m.wf(),
                    m@ == text_fields(fields@.subrange(0, i as int)),
                decreases fields@.len() - i,
            {
                assert(fields@.subrange(0, i + 1).drop_last() =~= fields@.subrange(0, i as int));
                match &fields[i].1 {
                    JsonValue::Text(t) => {
                        m.insert(fields[i].0.as_str(), t.as_str());
                    },
                    _ => {},
                }
                i = i + 1;
            }
            assert(fields@.subrange(0, fields@.len() as int) =~= fields@);
        },
        _ => {},
    }
    m
}

fn entity_type_named(name: &String) -> (t: FinancialEntityType)
    ensures
        entity_type_for(t, name@),
{
    let n = name.as_str();
    if crate::json::str_equals(n, "Account") {
        FinancialEntityType::Account
    } else if crate::json::str_equals(n, "Asset") {
        FinancialEntityType::Asset
    } else if crate::json::str_equals(n, "Liability") {
        FinancialEntityType::Liability
    } else if crate::json::str_equals(n, "Goal") {
        FinancialEntityType::Goal
    } else if crate::json::str_equals(n, "Income") {
        FinancialEntityType::Income
    } else if crate::json::str_equals(n, "Expense") {
        FinancialEntityType::Expense
    } else if crate::json::str_equals(n, "Tax") {
        FinancialEntityType::Tax
    } else if crate::json::str_equals(n, "Insurance") {
        FinancialEntityType::Insurance
    } else if crate::json::str_equals(n, "Investment") {
        FinancialEntityType::Investment
    } else if crate::json::str_equals(n, "Retirement") {
        FinancialEntityType::Retirement
    } else {
        FinancialEntityType::Other(name.clone())
    }
}

fn decision_type_named(name: &String) -> (t: DecisionType)
    ensures
        decision_type_for(t, name@),
{
    let n = name.as_str();
    if crate::json::str_equals(n, "Investment") {
        DecisionType::Investment
    } else if crate::json::str_equals(n, "Withdrawal") {
        DecisionType::Withdrawal
    } else if crate::json::str_equals(n, "AssetAllocation") {
        DecisionType::AssetAllocation
    } else if crate::json::str_equals(n, "TaxStrategy") {
        DecisionType::TaxStrategy
    } else if crate::json::str_equals(n, "RetirementPlanning") {
        DecisionType::RetirementPlanning
    } else if crate::json::str_equals(n, "InsuranceChange") {
        DecisionType::InsuranceChange
    } else if crate::json::str_equals(n, "BudgetAdjustment") {
        DecisionType::BudgetAdjustment
    } else if crate::json::str_equals(n, "DebtManagement") {
        DecisionType::DebtManagement
    } else {
        DecisionType::Other(name.clone())
    }
}

fn status_at(v: &JsonValue, key: &str) -> (s: DecisionStatus)
    ensures
        s == status_for(json_index(*v, key@)),
{
    match text_at(v, key) {
        Some(t) => {
            let n = t.as_str();
            if crate::json::str_equals(n, "Agreed") {
                DecisionStatus::Agreed
            } else if crate::json::str_equals(n, "Rejected") {
                DecisionStatus::Rejected
            } else if crate::json::str_equals(n, "Pending") {
                DecisionStatus::Pending
            } else if crate::json::str_equals(n, "Completed") {
                DecisionStatus::Completed
            } else {
                DecisionStatus::Proposed
            }
        },
        None => DecisionStatus::Proposed,
    }
}

/// The entities in the model's answer to the entity prompt: the answer
/// must be a JSON array; each of its entities with a string type and name
/// gives an entity (see `entity_read`), in order; the others are skipped.
pub fn parse_extracted_entities(answer: Option<&JsonValue>) -> (r: Result<Vec<FinancialEntity>, SummaryGenerationError>)
    ensures
        match answer {
            Some(JsonValue::Array(js)) => r matches Ok(es) && {
                let kept = js@.filter(|j: JsonValue| entity_readable(j));
                &&& es@.len() == kept.len()
                &&& forall|k: int| 0 <= k < kept.len() ==> entity_read(#[trigger] es@[k], kept[k])
            },
            _ => r == Err::<Vec<FinancialEntity>, SummaryGenerationError>(SummaryGenerationError::AnswerNotJsonArray),
        },
{
    let js = match answer {
        Some(JsonValue::Array(js)) => js,
        _ => {
            return Err(SummaryGenerationError::AnswerNotJsonArray);
        },
    };
    let ghost pred = |j: JsonValue| entity_readable(j);
    let mut es: Vec<FinancialEntity> = Vec::new();
    let mut i: usize = 0;
    assert(js@.subrange(0, 0) =~= Seq::<JsonValue>::empty());
    while i < js.len()
        invariant
            i <= js@.len(),
            pred == (|j: JsonValue| entity_readable(j)),
            es@.len() == js@.subrange(0, i as int).filter(pred).len(),
            forall|k: int| 0 <= k < es@.len() ==> entity_read(#[trigger] es@[k], js@.subrange(0, i as int).filter(pred)[k]),
        decreases js@.len() - i,
    {
        let j = &js[i];
        proof {
            assert(js@.subrange(0, i + 1) =~= js@.subrange(0, i as int).push(*j));
            js@.subrange(0, i as int).lemma_filter_push(*j, pred);
        }
        let kind_text = text_at(j, "entity_type");
        let name = text_at(j, "name");
        match (kind_text, name) {
            (Some(t), Some(n)) => {
                let entity = FinancialEntity {
                    entity_type: entity_type_named(t),
                    name: n.clone(),
                    attributes: attributes_at(j, "attributes"),
                    importance: level_at(j, "importance"),
                };
                es.push(entity);
            },
            _ => {},
        }
        i = i + 1;
    }
    assert(js@.subrange(0, js@.len() as int) =~= js@);
    Ok(es)
}

/// The decisions in the model's answer to the decision prompt: the answer
/// must be a JSON array; each of its decisions with a string type and
/// description gives a decision (see `decision_read`), in order; the
/// others are skipped.
pub fn parse_extracted_decisions(answer: Option<&JsonValue>) -> (r: Result<Vec<FinancialDecision>, SummaryGenerationError>)
    ensures
        match answer {
            Some(JsonValue::Array(js)) => r matches Ok(ds) && {
                let kept = js@.filter(|j: JsonValue| decision_readable(j));
                &&& ds@.len() == kept.len()
                &&& forall|k: int| 0 <= k < kept.len() ==> decision_read(#[trigger] ds@[k], kept[k])
            },
            _ => r == Err::<Vec<FinancialDecision>, SummaryGenerationError>(SummaryGenerationError::AnswerNotJsonArray),
        },
{
    let js = match answer {
        Some(JsonValue::Array(js)) => js,
        _ => {
            return Err(SummaryGenerationError::AnswerNotJsonArray);
        },
    };
    let ghost pred = |j: JsonValue| decision_readable(j);
    let mut ds: Vec<FinancialDecision> = Vec::new();
    let mut i: usize = 0;
    assert(js@.subrange(0, 0) =~= Seq::<JsonValue>::empty());
    while i < js.len()
        invariant
            i <= js@.len(),
            pred == (|j: JsonValue| decision_readable(j)),
            ds@.len() == js@.subrange(0, i as int).filter(pred).len(),
            forall|k: int| 0 <= k < ds@.len() ==> decision_read(#[trigger] ds@[k], js@.subrange(0, i as int).filter(pred)[k]),
        decreases js@.len() - i,
    {
        let j = &js[i];
        proof {
            assert(js@.subrange(0, i + 1) =~= js@.subrange(0, i as int).push(*j));
            js@.subrange(0, i as int).lemma_filter_push(*j, pred);
        }
        let kind_text = text_at(j, "decision_type");
        let description = text_at(j, "description");
        match (kind_text, description) {
            (Some(t), Some(d)) => {
                let decision = FinancialDecision {
                    decision_type: decision_type_named(t),
                    description: d.clone(),
                    status: status_at(j, "status"),
                    related_entities: texts_at(j, "related_entities"),
                    importance: level_at(j, "importance"),
                };
                ds.push(decision);
            },
            _ => {},
        }
        i = i + 1;
    }
    assert(js@.subrange(0, js@.len() as int) =~= js@);
    Ok(ds)
}

/// The topics in the model's answer to the topic prompt: the answer must
/// be a JSON array; each of its topics with a string name gives a topic
/// (see `topic_read`), in order; the others are skipped.
pub fn parse_extracted_topics(answer: Option<&JsonValue>) -> (r: Result<Vec<ConversationTopic>, SummaryGenerationError>)
    ensures
        match answer {
            Some(JsonValue::Array(js)) => r matches Ok(ts) && {
                let kept = js@.filter(|j: JsonValue| topic_readable(j));
                &&& ts@.len() == kept.len()
                &&& forall|k: int| 0 <= k < kept.len() ==> topic_read(#[trigger] ts@[k], kept[k])
            },
            _ => r == Err::<Vec<ConversationTopic>, SummaryGenerationError>(SummaryGenerationError::AnswerNotJsonArray),
        },
{
    let js = match answer {
        Some(JsonValue::Array(js)) => js,
        _ => {
            return Err(SummaryGenerationError::AnswerNotJsonArray);
        },
    };
    let ghost pred = |j: JsonValue| topic_readable(j);
    let mut ts: Vec<ConversationTopic> = Vec::new();
    let mut i: usize = 0;
    assert(js@.subrange(0, 0) =~= Seq::<JsonValue>::empty());
    while i < js.len()
        invariant
            i <= js@.len(),
            pred == (|j: JsonValue| topic_readable(j)),
            ts@.len() == js@.subrange(0, i as int).filter(pred).len(),
            forall|k: int| 0 <= k < ts@.len() ==> topic_read(#[trigger] ts@[k], js@.subrange(0, i as int).filter(pred)[k]),
        decreases js@.len() - i,
    {
        let j = &js[i];
        proof {
            assert(js@.subrange(0, i + 1) =~= js@.subrange(0, i as int).push(*j));
            js@.subrange(0, i as int).lemma_filter_push(*j, pred);
        }
        match text_at(j, "name") {
            Some(n) => {
                let topic = ConversationTopic {
                    name: n.clone(),
                    confidence: level_at(j, "confidence"),
                    message_ids: texts_at(j, "message_ids"),
                };
                ts.push(topic);
            },
            None => {},
        }
        i = i + 1;
    }
    assert(js@.subrange(0, js@.len() as int) =~= js@);
    Ok(ts)
}


/// The summary of a conversation from the model's summary text and the
/// entities, decisions and topics read from its other answers: a first
/// version covering up to the conversation's last message; refused when
/// the conversation has no message.
pub fn assemble_summary(
    conversation_id: &str,
    conversation: &Conversation,
    summary_text: String,
    entities: Vec<FinancialEntity>,
    decisions: Vec<FinancialDecision>,
    topics: Vec<ConversationTopic>,
) -> (r: Result<ConversationSummary, SummaryGenerationError>)
    ensures
        conversation.messages@.len() == 0 ==> r == Err::<ConversationSummary, SummaryGenerationError>(
            SummaryGenerationError::NoMessages),
        conversation.messages@.len() > 0 ==> (r matches Ok(summary) && {
            &&& summary.conversation_id@ == conversation_id@
            &&& summary.content == summary_text
            &&& summary.last_message_id@ == conversation.messages@.last().id@
            &&& summary.version == 1
            &&& summary.key_entities@ == entities@
            &&& summary.key_decisions@ == decisions@
            &&& summary.topics@ == topics@
        }),
{
    let n = conversation.messages.len();
    if n == 0 {
        return Err(SummaryGenerationError::NoMessages);
    }
    let last_message_id = conversation.messages[n - 1].id.clone();
    let mut summary = ConversationSummary::new(String::from_str(conversation_id), summary_text, last_message_id);
    let mut es = entities;
    let mut ds = decisions;
    let mut ts = topics;
    summary.key_entities.append(&mut es);
    summary.key_decisions.append(&mut ds);
    summary.topics.append(&mut ts);
    Ok(summary)
}

/// Position of the first `-` in a text, if any.
pub open spec fn first_dash(s: Seq<char>) -> Option<int> {
    if exists|i: int| 0 <= i < s.len() && s[i] == '-' {
        Some(choose|i: int| 0 <= i < s.len() && s[i] == '-' && forall|k: int| 0 <= k < i ==> s[k] != '-')
    } else {
        None
    }
}

/// The conversation a summary identifier names: the text before its first
/// `-`; refused when it holds none.
pub fn summary_conversation_id(summary_id: &str) -> (r: Result<String, SummaryGenerationError>)
    ensures
        match first_dash(summary_id@) {
            Some(i) => r matches Ok(c) && c@ == summary_id@.subrange(0, i),
            None => r == Err::<String, SummaryGenerationError>(SummaryGenerationError::InvalidSummaryId),
        },
{
    let cs = crate::text::chars_of(summary_id);
    let mut prefix = String::new();
    let mut i: usize = 0;
    while i < cs.len()
        invariant
            i <= cs@.len(),
            cs@ == summary_id@,
            prefix@ == cs@.subrange(0, i as int),
            forall|k: int| 0 <= k < i ==> cs@[k] != '-',
        decreases cs@.len() - i,
    {
        if cs[i] == '-' {
            proof {
                assert(summary_id@[i as int] == '-');
                let j = first_dash(summary_id@)->0;
                if j < i {
                    assert(cs@[j] != '-');
                }
                if j > i {
                    assert(summary_id@[i as int] != '-');
                }
            }
            return Ok(prefix);
        }
        crate::text::push_char(&mut prefix, cs[i]);
        i = i + 1;
        assert(prefix@ =~= cs@.subrange(0, i as int));
    }
    Err(SummaryGenerationError::InvalidSummaryId)
}

/// The summary under the identifier it replaces.
pub fn relabel_summary(summary: ConversationSummary, summary_id: &str) -> (s: ConversationSummary)
    ensures
        s.id@ == summary_id@,
        s.conversation_id == summary.conversation_id,
        s.content == summary.content,
        s.version == summary.version,
        s.last_message_id == summary.last_message_id,
        s.key_entities == summary.key_entities,
        s.key_decisions == summary.key_decisions,
        s.topics == summary.topics,
{
    ConversationSummary { id: String::from_str(summary_id), ..summary }
}

/// Some requested topic, lower-cased, occurs in the topic's name,
/// lower-cased.
pub open spec fn topic_requested(t: ConversationTopic, requested: Seq<String>) -> bool {
    exists|k: int| 0 <= k < requested.len() && is_substring(lowercase(requested[k]@), lowercase(t.name@))
}

/// The extracted topics that were requested (see `topic_requested`), in
/// order.
pub fn filter_topics(extracted: Vec<ConversationTopic>, requested: &[String]) -> (r: Vec<ConversationTopic>)
    ensures
        r@ == extracted@.filter(|t: ConversationTopic| topic_requested(t, requested@)),
{
    let ghost pred = |t: ConversationTopic| topic_requested(t, requested@);
    let mut r: Vec<ConversationTopic> = Vec::new();
    let mut items = extracted;
    let ghost all = items@;
    let mut i: usize = 0;
    let n = items.len();
    assert(all.subrange(0, 0) =~= Seq::<ConversationTopic>::empty());
    while items.len() > 0
        invariant
            i <= n,
            n == all.len(),
            items@ == all.subrange(i as int, n as int),
            pred == (|t: ConversationTopic| topic_requested(t, requested@)),
            r@ == all.subrange(0, i as int).filter(pred),
        decreases items@.len(),
    {
        let t = items.remove(0);
        assert(t == all[i as int]);
        proof {
            assert(all.subrange(0, i + 1) =~= all.subrange(0, i as int).push(t));
            all.subrange(0, i as int).lemma_filter_push(t, pred);
        }
        let name = to_lowercase(t.name.as_str());
        let mut found = false;
        let mut k: usize = 0;
        while k < requested.len() && !found
            invariant
                k <= requested@.len(),
                name@ == lowercase(t.name@),
                found ==> topic_requested(t, requested@),
                !found ==> forall|m: int| 0 <= m < k ==> !is_substring(lowercase(requested@[m]@), lowercase(t.name@)),
            decreases requested@.len() - k,
        {
            let wanted = to_lowercase(requested[k].as_str());
            if str_contains(name.as_str(), wanted.as_str()) {
                found = true;
            }
            k = k + 1;
        }
        if found {
            r.push(t);
        }
        i = i + 1;
        assert(items@ =~= all.subrange(i as int, n as int));
    }
    assert(all.subrange(0, n as int) =~= all);
    r
}

/// The summary focused on topics: identified by the conversation followed
/// by `-topic-summary`, a first version covering up to the conversation's
/// last message, with the entities, decisions and (requested) topics;
/// refused when the conversation has no message.
pub fn topic_summary(
    conversation_id: &str,
    conversation: &Conversation,
    summary_text: String,
    entities: Vec<FinancialEntity>,
    decisions: Vec<FinancialDecision>,
    topics: Vec<ConversationTopic>,
) -> (r: Result<ConversationSummary, SummaryGenerationError>)
    ensures
        conversation.messages@.len() == 0 ==> r == Err::<ConversationSummary, SummaryGenerationError>(
            SummaryGenerationError::NoMessages),
        conversation.messages@.len() > 0 ==> (r matches Ok(summary) && {
            &&& summary.id@ == conversation_id@ + "-topic-summary"@
            &&& summary.conversation_id@ == conversation_id@
            &&& summary.content == summary_text
            &&& summary.last_message_id@ == conversation.messages@.last().id@
            &&& summary.version == 1
            &&& summary.key_entities@ == entities@
            &&& summary.key_decisions@ == decisions@
            &&& summary.topics@ == topics@
        }),
{
    let n = conversation.messages.len();
    if n == 0 {
        return Err(SummaryGenerationError::NoMessages);
    }
    let mut id = String::from_str(conversation_id);
    id.append("-topic-summary");
    Ok(ConversationSummary {
        id,
        conversation_id: String::from_str(conversation_id),
        content: summary_text,
        version: 1,
        created_at: crate::clock::now(),
        updated_at: crate::clock::now(),
        last_message_id: conversation.messages[n - 1].id.clone(),
        key_entities: entities,
        key_decisions: decisions,
        topics,
    })
}

/// The entities a model's answer text lists: the text read as JSON (see
/// `json_document`), then as `parse_extracted_entities` says.
pub fn parse_extracted_entities_text(answer: &str) -> (r: Result<Vec<FinancialEntity>, SummaryGenerationError>)
    ensures
        match json_document(answer@) {
            Some(JsonValue::Array(js)) => r matches Ok(xs) && {
                let kept = js@.filter(|j: JsonValue| entity_readable(j));
                &&& xs@.len() == kept.len()
                &&& forall|k: int| 0 <= k < kept.len() ==> entity_read(#[trigger] xs@[k], kept[k])
            },
            _ => r == Err::<Vec<FinancialEntity>, SummaryGenerationError>(SummaryGenerationError::AnswerNotJsonArray),
        },
{
    let parsed = parse_json(answer);
    match &parsed {
        Some(v) => parse_extracted_entities(Some(v)),
        None => parse_extracted_entities(None),
    }
}

/// The decisions a model's answer text lists: the text read as JSON (see
/// `json_document`), then as `parse_extracted_decisions` says.
pub fn parse_extracted_decisions_text(answer: &str) -> (r: Result<Vec<FinancialDecision>, SummaryGenerationError>)
    ensures
        match json_document(answer@) {
            Some(JsonValue::Array(js)) => r matches Ok(xs) && {
                let kept = js@.filter(|j: JsonValue| decision_readable(j));
                &&& xs@.len() == kept.len()
                &&& forall|k: int| 0 <= k < kept.len() ==> decision_read(#[trigger] xs@[k], kept[k])
            },
            _ => r == Err::<Vec<FinancialDecision>, SummaryGenerationError>(SummaryGenerationError::AnswerNotJsonArray),
        },
{
    let parsed = parse_json(answer);
    match &parsed {
        Some(v) => parse_extracted_decisions(Some(v)),
        None => parse_extracted_decisions(None),
    }
}

/// The topics a model's answer text lists: the text read as JSON (see
/// `json_document`), then as `parse_extracted_topics` says.
pub fn parse_extracted_topics_text(answer: &str) -> (r: Result<Vec<ConversationTopic>, SummaryGenerationError>)
    ensures
        match json_document(answer@) {
            Some(JsonValue::Array(js)) => r matches Ok(xs) && {
                let kept = js@.filter(|j: JsonValue| topic_readable(j));
                &&& xs@.len() == kept.len()
                &&& forall|k: int| 0 <= k < kept.len() ==> topic_read(#[trigger] xs@[k], kept[k])
            },
            _ => r == Err::<Vec<ConversationTopic>, SummaryGenerationError>(SummaryGenerationError::AnswerNotJsonArray),
        },
{
    let parsed = parse_json(answer);
    match &parsed {
        Some(v) => parse_extracted_topics(Some(v)),
        None => parse_extracted_topics(None),
    }
}

} // verus!
