//! Conversation summaries: the entities, decisions and topics they record,
//! and the rules that score how important an entity is.

use vstd::prelude::*;
use crate::clock::{Timestamp, now, new_id};
use crate::string_map::{StringMap, lookup};
use crate::text::{to_lowercase, lowercase, is_substring, str_contains};
use super::conversation_storage::Conversation;

verus! {

/// Types of financial entities that can be extracted.
#[derive(Debug, Clone, PartialEq, Eq, Hash)]
pub enum FinancialEntityType {
    Account,
    Asset,
    Liability,
    Goal,
    Income,
    Expense,
    Tax,
    Insurance,
    Investment,
    Retirement,
    Other(String),
}

impl FinancialEntityType {
    /// The position of the variant in the declaration.
    pub open spec fn kind(self) -> nat {
        match self {
            FinancialEntityType::Account => 0,
            FinancialEntityType::Asset => 1,
            FinancialEntityType::Liability => 2,
            FinancialEntityType::Goal => 3,
            FinancialEntityType::Income => 4,
            FinancialEntityType::Expense => 5,
            FinancialEntityType::Tax => 6,
            FinancialEntityType::Insurance => 7,
            FinancialEntityType::Investment => 8,
            FinancialEntityType::Retirement => 9,
            FinancialEntityType::Other(_) => 10,
        }
    }

    /// A copy of the type.
    pub fn duplicate(&self) -> (t: Self)
        ensures
            t == *self,
    {
        match self {
            FinancialEntityType::Account => FinancialEntityType::Account,
            FinancialEntityType::Asset => FinancialEntityType::Asset,
            FinancialEntityType::Liability => FinancialEntityType::Liability,
            FinancialEntityType::Goal => FinancialEntityType::Goal,
            FinancialEntityType::Income => FinancialEntityType::Income,
            FinancialEntityType::Expense => FinancialEntityType::Expense,
            FinancialEntityType::Tax => FinancialEntityType::Tax,
            FinancialEntityType::Insurance => FinancialEntityType::Insurance,
            FinancialEntityType::Investment => FinancialEntityType::Investment,
            FinancialEntityType::Retirement => FinancialEntityType::Retirement,
            FinancialEntityType::Other(name) => FinancialEntityType::Other(name.clone()),
        }
    }
}

/// Two entity types match: two `Other` types when their names agree
/// ignoring case, any other two when they are the same variant.
pub open spec fn same_entity_type(a: FinancialEntityType, b: FinancialEntityType) -> bool {
    match (a, b) {
        (FinancialEntityType::Other(x), FinancialEntityType::Other(y)) => lowercase(x@) == lowercase(y@),
        _ => a.kind() == b.kind(),
    }
}

/// Whether two entity types match (see `same_entity_type`).
pub fn matches_entity_type(rule_type: &FinancialEntityType, entity_type: &FinancialEntityType) -> (b: bool)
    ensures
        b == same_entity_type(*rule_type, *entity_type),
{
    match (rule_type, entity_type) {
        (FinancialEntityType::Other(x), FinancialEntityType::Other(y)) => {
            let lx = to_lowercase(x.as_str());
            let ly = to_lowercase(y.as_str());
            lx == ly
        },
        (FinancialEntityType::Account, FinancialEntityType::Account) => true,
        (FinancialEntityType::Asset, FinancialEntityType::Asset) => true,
        (FinancialEntityType::Liability, FinancialEntityType::Liability) => true,
        (FinancialEntityType::Goal, FinancialEntityType::Goal) => true,
        (FinancialEntityType::Income, FinancialEntityType::Income) => true,
        (FinancialEntityType::Expense, FinancialEntityType::Expense) => true,
        (FinancialEntityType::Tax, FinancialEntityType::Tax) => true,
        (FinancialEntityType::Insurance, FinancialEntityType::Insurance) => true,
        (FinancialEntityType::Investment, FinancialEntityType::Investment) => true,
        (FinancialEntityType::Retirement, FinancialEntityType::Retirement) => true,
        _ => false,
    }
}

/// A financial entity mentioned in a conversation.
#[derive(Debug, Clone)]
pub struct FinancialEntity {
    /// Type of financial entity
    pub entity_type: FinancialEntityType,
    /// Name or identifier of the entity
    pub name: String,
    /// Additional attributes of the entity
    pub attributes: StringMap,
    /// Importance in thousandths (0 to 1000)
    pub importance: u32,
}

impl FinancialEntity {
    /// A copy of the entity with another importance.
    pub fn with_importance(&self, importance: u32) -> (e: Self)
        ensures
            e.entity_type == self.entity_type,
            e.name == self.name,
            e.attributes@ == self.attributes@,
            e.attributes.wf() == self.attributes.wf(),
            e.importance == importance,
    {
        FinancialEntity {
            entity_type: self.entity_type.duplicate(),
            name: self.name.clone(),
            attributes: self.attributes.duplicate(),
            importance,
        }
    }
}

/// Status of a financial decision.
#[derive(Debug, Clone, Copy, PartialEq, Eq, Structural)]
pub enum DecisionStatus {
    Proposed,
    Agreed,
    Rejected,
    Pending,
    Completed,
}

/// Types of financial decisions.
#[derive(Debug, Clone, PartialEq, Eq)]
pub enum DecisionType {
    Investment,
    Withdrawal,
    AssetAllocation,
    TaxStrategy,
    RetirementPlanning,
    InsuranceChange,
    BudgetAdjustment,
    DebtManagement,
    Other(String),
}

/// A financial decision mentioned in a conversation.
#[derive(Debug, Clone)]
pub struct FinancialDecision {
    /// Type of decision
    pub decision_type: DecisionType,
    /// Description of the decision
    pub description: String,
    /// Status of the decision
    pub status: DecisionStatus,
    /// Related financial entities
    pub related_entities: Vec<String>,
    /// Importance in thousandths (0 to 1000)
    pub importance: u32,
}

/// A topic discussed in a conversation.
#[derive(Debug, Clone)]
pub struct ConversationTopic {
    /// Name of the topic
    pub name: String,
    /// Confidence in thousandths (0 to 1000)
    pub confidence: u32,
    /// Message IDs where this topic was discussed
    pub message_ids: Vec<String>,
}

/// Types of summaries that can be generated.
#[derive(Debug, Clone, PartialEq)]
pub enum SummaryType {
    /// Brief overview (1-2 sentences)
    Brief,
    /// Standard summary (1-2 paragraphs)
    Standard,
    /// Detailed summary with all key points
    Detailed,
    /// Focus on specific financial topic
    TopicFocused(String),
}

/// Confidence of a summary, in thousandths.
#[derive(Debug, Clone, Copy, PartialEq, Eq, Structural)]
pub struct SummaryConfidence {
    pub overall: u32,
    pub confidence: u32,
}

/// A summary of a conversation.
#[derive(Debug, Clone)]
pub struct ConversationSummary {
    /// Unique ID for the summary
    pub id: String,
    /// ID of the conversation this summary is for
    pub conversation_id: String,
    /// The summary text
    pub content: String,
    /// Version of the summary (increments with updates)
    pub version: u32,
    /// When the summary was created
    pub created_at: Timestamp,
    /// When the summary was last updated
    pub updated_at: Timestamp,
    /// ID of the last message included in this summary
    pub last_message_id: String,
    /// Key financial entities mentioned in the summary
    pub key_entities: Vec<FinancialEntity>,
    /// Key decisions or actions mentioned in the summary
    pub key_decisions: Vec<FinancialDecision>,
    /// Topics covered in the conversation
    pub topics: Vec<ConversationTopic>,
}

impl ConversationSummary {
    /// A first version of a summary, with no entities, decisions or topics.
    pub fn new(conversation_id: String, content: String, last_message_id: String) -> (s: Self)
        ensures
            s.conversation_id == conversation_id,
            s.content == content,
            s.last_message_id == last_message_id,
            s.version == 1,
            s.created_at == s.updated_at,
            s.key_entities@.len() == 0,
            s.key_decisions@.len() == 0,
            s.topics@.len() == 0,
    {
        let t = now();
        Self {
            id: new_id(),
            conversation_id,
            content,
            version: 1,
            created_at: t,
            updated_at: t,
            last_message_id,
            key_entities: Vec::new(),
            key_decisions: Vec::new(),
            topics: Vec::new(),
        }
    }

    /// Records a key entity.
    pub fn add_entity(&mut self, entity: FinancialEntity)
        ensures
            final(self).key_entities@ == old(self).key_entities@.push(entity),
            final(self).key_decisions == old(self).key_decisions,
            final(self).topics == old(self).topics,
            final(self).version == old(self).version,
            final(self).content == old(self).content,
    {
        self.key_entities.push(entity);
    }

    /// Records a key decision.
    pub fn add_decision(&mut self, decision: FinancialDecision)
        ensures
            final(self).key_decisions@ == old(self).key_decisions@.push(decision),
            final(self).key_entities == old(self).key_entities,
            final(self).topics == old(self).topics,
            final(self).version == old(self).version,
            final(self).content == old(self).content,
    {
        self.key_decisions.push(decision);
    }

    /// Records a topic.
    pub fn add_topic(&mut self, topic: ConversationTopic)
        ensures
            final(self).topics@ == old(self).topics@.push(topic),
            final(self).key_entities == old(self).key_entities,
            final(self).key_decisions == old(self).key_decisions,
            final(self).version == old(self).version,
            final(self).content == old(self).content,
    {
        self.topics.push(topic);
    }

    /// Replaces the content and the last message covered, as a new
    /// version.
    pub fn update_content(&mut self, content: String, last_message_id: String)
        requires
            old(self).version < u32::MAX,
        ensures
            final(self).content == content,
            final(self).last_message_id == last_message_id,
            final(self).version == old(self).version + 1,
            final(self).id == old(self).id,
            final(self).conversation_id == old(self).conversation_id,
            final(self).created_at == old(self).created_at,
            final(self).key_entities == old(self).key_entities,
            final(self).key_decisions == old(self).key_decisions,
            final(self).topics == old(self).topics,
    {
        self.content = content;
        self.last_message_id = last_message_id;
        self.version = self.version + 1;
        self.updated_at = now();
    }
}

/// A rule giving an importance to the entities it matches.
#[derive(Debug, Clone)]
pub struct ImportanceRule {
    /// Entity type to match
    pub entity_type: Option<FinancialEntityType>,
    /// Text the entity's name must contain (ignoring case)
    pub name_pattern: Option<String>,
    /// Attribute key the entity must have
    pub attribute_key: Option<String>,
    /// Text the attribute's value must contain (ignoring case)
    pub attribute_value_pattern: Option<String>,
    /// Importance to assign, in thousandths
    pub importance: u32,
}

/// `pattern` occurs in `text`, both lower-cased.
pub open spec fn contains_ignoring_case(text: Seq<char>, pattern: Seq<char>) -> bool {
    is_substring(lowercase(pattern), lowercase(text))
}

/// The rule matches the entity: its type where it names one, its name
/// pattern where it has one, and its attribute key, with the value pattern
/// where both are given.
pub open spec fn rule_matches(rule: ImportanceRule, entity: FinancialEntity) -> bool {
    &&& (rule.entity_type matches Some(t) ==> same_entity_type(t, entity.entity_type))
    &&& (rule.name_pattern matches Some(p) ==> contains_ignoring_case(entity.name@, p@))
    &&& (rule.attribute_key matches Some(k) ==> match rule.attribute_value_pattern {
        Some(vp) => lookup(entity.attributes@, k@) matches Some(v) && contains_ignoring_case(v, vp@),
        None => lookup(entity.attributes@, k@) is Some,
    })
}

fn contains_lowered(text: &str, pattern: &str) -> (b: bool)
    ensures
        b == contains_ignoring_case(text@, pattern@),
{
    let t = to_lowercase(text);
    let p = to_lowercase(pattern);
    str_contains(t.as_str(), p.as_str())
}

impl ImportanceRule {
    /// Whether the rule matches the entity (see `rule_matches`).
    pub fn matches(&self, entity: &FinancialEntity) -> (b: bool)
        ensures
            b == rule_matches(*self, *entity),
    {
        match &self.entity_type {
            Some(t) => {
                if !matches_entity_type(t, &entity.entity_type) {
                    return false;
                }
            },
            None => {},
        }
        match &self.name_pattern {
            Some(p) => {
                if !contains_lowered(entity.name.as_str(), p.as_str()) {
                    return false;
                }
            },
            None => {},
        }
        match &self.attribute_key {
            Some(k) => match &self.attribute_value_pattern {
                Some(vp) => match entity.attributes.get(k.as_str()) {
                    Some(v) => contains_lowered(v.as_str(), vp.as_str()),
                    None => false,
                },
                None => entity.attributes.contains_key(k.as_str()),
            },
            None => true,
        }
    }
}

/// The importance the rules give an entity: the highest importance of a
/// matching rule among the first `n`, and 500 at least.
pub open spec fn scored_importance(rules: Seq<ImportanceRule>, entity: FinancialEntity, n: nat) -> u32
    decreases n,
{
    if n == 0 {
        500
    } else {
        let before = scored_importance(rules, entity, (n - 1) as nat);
        if rule_matches(rules[n - 1], entity) && rules[n - 1].importance > before {
            rules[n - 1].importance
        } else {
            before
        }
    }
}

/// The importance the rules give an entity is the greatest of 500 and the
/// importances of all the rules that match it: it is at least 500, at least
/// each matching rule's importance, and it is 500 or some matching rule's
/// importance.
pub proof fn lemma_importance_is_highest_match(rules: Seq<ImportanceRule>, entity: FinancialEntity, n: nat)
    requires
        n <= rules.len(),
    ensures
        scored_importance(rules, entity, n) >= 500,
        forall|k: int| 0 <= k < n && rule_matches(#[trigger] rules[k], entity)
            ==> scored_importance(rules, entity, n) >= rules[k].importance,
        scored_importance(rules, entity, n) == 500 || exists|k: int| 0 <= k < n && rule_matches(#[trigger] rules[k], entity)
            && scored_importance(rules, entity, n) == rules[k].importance,
    decreases n,
{
    if n > 0 {
        lemma_importance_is_highest_match(rules, entity, (n - 1) as nat);
        let before = scored_importance(rules, entity, (n - 1) as nat);
        if scored_importance(rules, entity, n) != 500 {
            if rule_matches(rules[n - 1], entity) && rules[n - 1].importance > before {
                assert(rule_matches(rules[n - 1], entity) && scored_importance(rules, entity, n) == rules[n - 1].importance);
            } else {
                let k = choose|k: int| 0 <= k < n - 1 && rule_matches(#[trigger] rules[k], entity)
                    && before == rules[k].importance;
                assert(0 <= k < n && rule_matches(rules[k], entity) && scored_importance(rules, entity, n) == rules[k].importance);
            }
        }
    }
}

/// Scores the importance of entities by rules.
pub struct RuleBasedImportanceScorer {
    rules: Vec<ImportanceRule>,
}

fn type_rule(t: FinancialEntityType, name_pattern: Option<&str>, importance: u32) -> (r: ImportanceRule)
    ensures
        r.entity_type == Some(t),
        match name_pattern {
            Some(p) => r.name_pattern is Some && r.name_pattern->0@ == p@,
            None => r.name_pattern is None,
        },
        r.attribute_key is None,
        r.attribute_value_pattern is None,
        r.importance == importance,
{
    ImportanceRule {
        entity_type: Some(t),
        name_pattern: match name_pattern {
            Some(p) => Some(String::from_str(p)),
            None => None,
        },
        attribute_key: None,
        attribute_value_pattern: None,
        importance,
    }
}

impl RuleBasedImportanceScorer {
    /// The rules, in the order they are applied.
    pub closed spec fn rules_view(&self) -> Seq<ImportanceRule> {
        self.rules@
    }

    /// A scorer with the default rules: retirement accounts (401(k), IRA),
    /// assets worth thousands and retirement goals are of high importance
    /// (900), tax entities of 800, income of 700, other goals and expenses
    /// of 600.
    pub fn new() -> (s: Self)
        ensures
            s.rules_view().len() == 8,
            s.rules_view()[0].entity_type == Some(FinancialEntityType::Account),
            s.rules_view()[0].name_pattern matches Some(p) && p@ == "401(k)"@,
            s.rules_view()[0].importance == 900,
            s.rules_view()[1].entity_type == Some(FinancialEntityType::Account),
            s.rules_view()[1].name_pattern matches Some(p) && p@ == "IRA"@,
            s.rules_view()[1].importance == 900,
            s.rules_view()[2].entity_type == Some(FinancialEntityType::Asset),
            s.rules_view()[2].name_pattern is None,
            s.rules_view()[2].attribute_key matches Some(k) && k@ == "value"@,
            s.rules_view()[2].attribute_value_pattern matches Some(v) && v@ == "\\$[0-9,]+,000"@,
            s.rules_view()[2].importance == 900,
            s.rules_view()[3].entity_type == Some(FinancialEntityType::Goal),
            s.rules_view()[3].name_pattern matches Some(p) && p@ == "retirement"@,
            s.rules_view()[3].importance == 900,
            s.rules_view()[4].entity_type == Some(FinancialEntityType::Goal),
            s.rules_view()[4].name_pattern is None,
            s.rules_view()[4].importance == 600,
            s.rules_view()[5].entity_type == Some(FinancialEntityType::Income),
            s.rules_view()[5].name_pattern is None,
            s.rules_view()[5].importance == 700,
            s.rules_view()[6].entity_type == Some(FinancialEntityType::Expense),
            s.rules_view()[6].name_pattern is None,
            s.rules_view()[6].importance == 600,
            s.rules_view()[7].entity_type == Some(FinancialEntityType::Tax),
            s.rules_view()[7].name_pattern is None,
            s.rules_view()[7].importance == 800,
            forall|i: int| 0 <= i < 8 && i != 2 ==> (#[trigger] s.rules_view()[i]).attribute_key is None
                && s.rules_view()[i].attribute_value_pattern is None,
    {
        let mut rules: Vec<ImportanceRule> = Vec::new();
        rules.push(type_rule(FinancialEntityType::Account, Some("401(k)"), 900));
        rules.push(type_rule(FinancialEntityType::Account, Some("IRA"), 900));
        rules.push(ImportanceRule {
            entity_type: Some(FinancialEntityType::Asset),
            name_pattern: None,
            attribute_key: Some(String::from_str("value")),
            attribute_value_pattern: Some(String::from_str("\\$[0-9,]+,000")),
            importance: 900,
        });
        rules.push(type_rule(FinancialEntityType::Goal, Some("retirement"), 900));
        rules.push(type_rule(FinancialEntityType::Goal, None, 600));
        rules.push(type_rule(FinancialEntityType::Income, None, 700));
        rules.push(type_rule(FinancialEntityType::Expense, None, 600));
        rules.push(type_rule(FinancialEntityType::Tax, None, 800));
        Self { rules }
    }

    fn importance_of(&self, entity: &FinancialEntity) -> (r: u32)
        ensures
            r == scored_importance(self.rules@, *entity, self.rules@.len()),
    {
        let mut best: u32 = 500;
        let mut i: usize = 0;
        while i < self.rules.len()
            invariant
                i <= self.rules@.len(),
                best == scored_importance(self.rules@, *entity, i as nat),
            decreases self.rules@.len() - i,
        {
            let rule = &self.rules[i];
            if rule.matches(entity) && rule.importance > best {
                best = rule.importance;
            }
            i = i + 1;
        }
        best
    }

    /// The entities, each with the importance the rules give it (see
    /// `scored_importance`).
    pub fn score_entities(&self, entities: &[FinancialEntity]) -> (r: Vec<FinancialEntity>)
        ensures
            r@.len() == entities@.len(),
            forall|i: int| 0 <= i < r@.len() ==> {
                &&& (#[trigger] r@[i]).entity_type == entities@[i].entity_type
                &&& r@[i].name == entities@[i].name
                &&& r@[i].attributes@ == entities@[i].attributes@
                &&& r@[i].importance == scored_importance(self.rules_view(), entities@[i], self.rules_view().len())
            },
    {
        let mut r: Vec<FinancialEntity> = Vec::new();
        let mut i: usize = 0;
        while i < entities.len()
            invariant
                i <= entities@.len(),
                r@.len() == i,
                forall|k: int| 0 <= k < i ==> {
                    &&& (#[trigger] r@[k]).entity_type == entities@[k].entity_type
                    &&& r@[k].name == entities@[k].name
                    &&& r@[k].attributes@ == entities@[k].attributes@
                    &&& r@[k].importance == scored_importance(self.rules@, entities@[k], self.rules@.len())
                },
            decreases entities@.len() - i,
        {
            let importance = self.importance_of(&entities[i]);
            r.push(entities[i].with_importance(importance));
            i = i + 1;
        }
        r
    }
}

/// The transcript lines of the first `n` messages: `Human:` for the user,
/// `Assistant:` for the assistant, the role itself otherwise.
pub open spec fn transcript(c: Conversation, n: nat) -> Seq<char>
    decreases n,
{
    if n == 0 {
        Seq::empty()
    } else {
        let m = c.messages@[n - 1];
        let speaker = if m.role@ == "user"@ {
            "Human"@
        } else if m.role@ == "assistant"@ {
            "Assistant"@
        } else {
            m.role@
        };
        transcript(c, (n - 1) as nat) + speaker + ": "@ + m.content@ + "\n\n"@
    }
}

/// The conversation written out as a transcript (see `transcript`).
pub fn format_conversation_text(conversation: &Conversation) -> (s: String)
    ensures
        s@ == transcript(*conversation, conversation.messages@.len()),
{
    let user = String::from_str("user");
    let assistant = String::from_str("assistant");
    let mut s = String::new();
    let mut i: usize = 0;
    while i < conversation.messages.len()
        invariant
            i <= conversation.messages@.len(),
            user@ == "user"@,
            assistant@ == "assistant"@,
            s@ == transcript(*conversation, i as nat),
        decreases conversation.messages@.len() - i,
    {
        let m = &conversation.messages[i];
        if m.role == user {
            s.append("Human");
        } else if m.role == assistant {
            s.append("Assistant");
        } else {
            s.append(m.role.as_str());
        }
        s.append(": ");
        s.append(m.content.as_str());
        s.append("\n\n");
        i = i + 1;
    }
    s
}

} // verus!
