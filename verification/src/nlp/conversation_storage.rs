//! Stored conversations: their messages, the storage configuration and the
//! in-memory store with its pruning, listing and search.

use vstd::prelude::*;
use crate::clock::{Timestamp, now, new_id};
use super::rule_based::FinancialQueryIntent;
use crate::string_map::StringMap;
use crate::text::{to_lowercase, lowercase, is_substring, str_contains, decimal, to_decimal};
use crate::ranking::{rank_desc, is_ranking, ranks_before, occurs_in};

verus! {

/// Role of the message sender.
#[derive(Debug, Clone, Copy, PartialEq, Eq, Structural)]
pub enum MessageRole {
    /// Message from the user
    User,
    /// Message from the assistant
    Assistant,
    /// System message
    System,
}

impl MessageRole {
    /// The role as it is written in a message.
    pub open spec fn spec_label(self) -> Seq<char> {
        match self {
            MessageRole::User => "user"@,
            MessageRole::Assistant => "assistant"@,
            MessageRole::System => "system"@,
        }
    }

    /// The role as it is written in a message.
    pub fn label(&self) -> (s: &'static str)
        ensures
            s@ == self.spec_label(),
    {
        match self {
            MessageRole::User => "user",
            MessageRole::Assistant => "assistant",
            MessageRole::System => "system",
        }
    }
}

/// Storage type for conversations.
#[derive(Debug, Clone, Copy, PartialEq, Eq, Structural)]
pub enum StorageType {
    /// In-memory storage
    Memory,
    /// File-based storage
    File,
    /// Database storage
    Database,
    /// DynamoDB storage
    DynamoDB,
}

/// Conversation storage configuration.
#[derive(Debug, Clone)]
pub struct ConversationStorageConfig {
    /// Storage type
    pub storage_type: StorageType,
    /// Base directory for file storage
    pub base_directory: Option<String>,
    /// Database URL for database storage
    pub database_url: Option<String>,
    /// DynamoDB table names (conversations table, messages table)
    pub dynamodb_tables: Option<(String, String)>,
    /// Maximum number of conversations to keep in memory
    pub max_memory_conversations: usize,
    /// Whether to enable conversation summarization
    pub enable_summarization: bool,
    /// Seconds a conversation stays readable from memory after its last
    /// update
    pub memory_ttl_seconds: i64,
}

impl Default for ConversationStorageConfig {
    fn default() -> (c: Self)
        ensures
            c.storage_type == StorageType::Memory,
            c.base_directory is None,
            c.database_url is None,
            c.dynamodb_tables is None,
            c.max_memory_conversations == 1000,
            c.enable_summarization,
            c.memory_ttl_seconds == 1,
    {
        ConversationStorageConfig {
            storage_type: StorageType::Memory,
            base_directory: None,
            database_url: None,
            dynamodb_tables: None,
            max_memory_conversations: 1000,
            enable_summarization: true,
            memory_ttl_seconds: 1,
        }
    }
}

/// A message of a conversation.
#[derive(Debug, Clone)]
pub struct ConversationMessage {
    /// Unique ID for the message
    pub id: String,
    /// When the message was created
    pub timestamp: Timestamp,
    /// Role of the message sender (user or assistant)
    pub role: String,
    /// Content of the message
    pub content: String,
    /// Detected intent (if available)
    pub intent: Option<String>,
    /// Confidence of the intent detection, in thousandths
    pub intent_confidence: Option<u32>,
    /// Metadata associated with the message
    pub metadata: Option<StringMap>,
}

/// A conversation session.
#[derive(Debug, Clone)]
pub struct Conversation {
    /// Unique ID for the conversation
    pub id: String,
    /// User ID associated with the conversation
    pub user_id: String,
    /// Messages in the conversation
    pub messages: Vec<ConversationMessage>,
    /// When the conversation was created
    pub created_at: Timestamp,
    /// When the conversation was last updated
    pub updated_at: Timestamp,
    /// Tags associated with the conversation
    pub tags: Vec<String>,
    /// Summary of the conversation (if available)
    pub summary: Option<String>,
    /// Metadata associated with the conversation
    pub metadata: StringMap,
}

/// Errors of conversation storage.
#[derive(Debug, Clone, Copy, PartialEq, Eq, Structural)]
pub enum StorageError {
    /// No conversation has the identifier.
    ConversationNotFound,
}

/// The summary kept for a conversation: its number of messages.
pub open spec fn message_count_summary(n: nat) -> Seq<char> {
    "Conversation with "@ + decimal(n) + " messages"@
}

/// The summary kept for a conversation (see `message_count_summary`).
pub fn generate_summary(conversation: &Conversation) -> (s: String)
    ensures
        s@ == message_count_summary(conversation.messages@.len()),
{
    let mut s = String::from_str("Conversation with ");
    let n = to_decimal(conversation.messages.len() as u64);
    s.append(n.as_str());
    s.append(" messages");
    s
}

/// A timestamp as an unsigned number of the same order.
pub open spec fn time_key(t: Timestamp) -> u128 {
    (t.micros as int + 0x8000_0000_0000_0000) as u128
}

fn time_key_of(t: Timestamp) -> (k: u128)
    ensures
        k == time_key(t),
{
    ((t.micros as i128) + 0x8000_0000_0000_0000i128) as u128
}

/// The update times of conversations as keys of the same order.
pub open spec fn time_keys(cs: Seq<Conversation>) -> Seq<u128> {
    Seq::new(cs.len(), |i: int| time_key(cs[i].updated_at))
}

/// No identifier occurs twice.
pub open spec fn distinct_ids(cs: Seq<Conversation>) -> bool {
    forall|i: int, j: int| 0 <= i < j < cs.len() ==> cs[i].id@ != cs[j].id@
}

/// Position of the conversation with the identifier, if any.
pub open spec fn conversation_position(cs: Seq<Conversation>, id: Seq<char>) -> Option<int> {
    if exists|i: int| 0 <= i < cs.len() && cs[i].id@ == id {
        Some(choose|i: int| 0 <= i < cs.len() && cs[i].id@ == id)
    } else {
        None
    }
}

/// The conversations after storing one: it replaces the one with its
/// identifier in place, or is appended.
pub open spec fn upserted(cs: Seq<Conversation>, c: Conversation) -> Seq<Conversation> {
    match conversation_position(cs, c.id@) {
        Some(i) => cs.update(i, c),
        None => cs.push(c),
    }
}

/// `kept` is what remains of `all` after pruning to at most `max`
/// conversations, the least recently updated going first: all of them when
/// they fit, otherwise as many as fit, each one of `all`, and none of those
/// dropped updated later than one kept.
pub open spec fn pruned(all: Seq<Conversation>, kept: Seq<Conversation>, max: nat) -> bool {
    &&& kept.len() == if all.len() > max { max } else { all.len() }
    &&& all.len() <= max ==> kept == all
    &&& forall|k: int| 0 <= k < kept.len() ==> #[trigger] all.contains(kept[k])
    &&& forall|k: int| 0 <= k < kept.len() ==> #[trigger] kept.contains(kept[k])
    &&& forall|o: int, k: int|
        0 <= o < all.len() && 0 <= k < kept.len() && !kept.contains(#[trigger] all[o])
            ==> all[o].updated_at.micros <= (#[trigger] kept[k]).updated_at.micros
}

/// A conversation has a message whose content, lower-cased, contains the
/// lower-cased query.
pub open spec fn mentions(c: Conversation, query: Seq<char>) -> bool {
    exists|m: int| 0 <= m < c.messages@.len() && is_substring(lowercase(query), lowercase(#[trigger] c.messages@[m].content@))
}

/// `r` lists the conversations selected from `cs`, most recently updated
/// first, ties in stored order.
pub open spec fn newest_first(cs: Seq<Conversation>, selected: spec_fn(Conversation) -> bool, r: Seq<Conversation>) -> bool {
    exists|order: Seq<usize>|
        #![trigger is_ranking(time_keys(cs), order)]
        is_ranking(time_keys(cs), order)
            && r == order.map_values(|i: usize| cs[i as int]).filter(selected)
}

/// `full` lists the user's conversations, most recently updated first.
pub open spec fn user_listing(cs: Seq<Conversation>, user_id: Seq<char>, full: Seq<Conversation>) -> bool {
    newest_first(cs, |c: Conversation| c.user_id@ == user_id, full)
}

/// `found` lists the conversations mentioning the query, most recently
/// updated first.
pub open spec fn search_listing(cs: Seq<Conversation>, query: Seq<char>, found: Seq<Conversation>) -> bool {
    newest_first(cs, |c: Conversation| mentions(c, query), found)
}

/// The conversations the references point at.
pub open spec fn deref_conversations(r: Seq<&Conversation>) -> Seq<Conversation> {
    r.map_values(|c: &Conversation| *c)
}

/// At most the first `limit` conversations when the limit is given and not
/// negative; all of them otherwise.
pub open spec fn truncated(s: Seq<Conversation>, limit: Option<i32>) -> Seq<Conversation> {
    match limit {
        Some(l) => if 0 <= l < s.len() { s.subrange(0, l as int) } else { s },
        None => s,
    }
}

/// Reading after a write: once a conversation is saved in a store with
/// room for it, reading its identifier gives it back, and reading any
/// other identifier gives what it gave before.
pub proof fn lemma_read_after_save(cs: Seq<Conversation>, c: Conversation, kept: Seq<Conversation>, max: nat, other: Seq<char>)
    requires
        distinct_ids(cs),
        pruned(upserted(cs, c), kept, max),
        upserted(cs, c).len() <= max,
    ensures
        conversation_position(kept, c.id@) matches Some(i) && kept[i] == c,
        other != c.id@ ==> match conversation_position(cs, other) {
            None => conversation_position(kept, other) is None,
            Some(j) => conversation_position(kept, other) matches Some(k) && kept[k] == cs[j],
        },
{
    assert(kept == upserted(cs, c));
    match conversation_position(cs, c.id@) {
        Some(i) => {
            assert(kept[i].id@ == c.id@);
            let p = conversation_position(kept, c.id@)->0;
            assert(kept[p].id@ == c.id@);
            if p != i {
                assert(cs[p].id@ == c.id@);
                assert(cs[i].id@ == c.id@);
            }
            if other != c.id@ {
                match conversation_position(cs, other) {
                    None => {
                        if conversation_position(kept, other) is Some {
                            let k = conversation_position(kept, other)->0;
                            assert(kept[k].id@ == other);
                            assert(cs[k].id@ == other);
                        }
                    },
                    Some(j) => {
                        assert(kept[j] == cs[j]);
                        assert(kept[j].id@ == other);
                        let k = conversation_position(kept, other)->0;
                        assert(kept[k].id@ == other);
                        if k != j {
                            assert(k != i);
                            assert(cs[k].id@ == other);
                        }
                    },
                }
            }
        },
        None => {
            let n = cs.len() as int;
            assert(kept[n] == c);
            let p = conversation_position(kept, c.id@)->0;
            assert(kept[p].id@ == c.id@);
            if p != n {
                assert(cs[p].id@ == c.id@);
            }
            if other != c.id@ {
                match conversation_position(cs, other) {
                    None => {
                        if conversation_position(kept, other) is Some {
                            let k = conversation_position(kept, other)->0;
                            assert(kept[k].id@ == other);
                            assert(k != n);
                            assert(cs[k].id@ == other);
                        }
                    },
                    Some(j) => {
                        assert(kept[j] == cs[j]);
                        assert(kept[j].id@ == other);
                        let k = conversation_position(kept, other)->0;
                        assert(kept[k].id@ == other);
                        if k != j {
                            assert(k != n);
                            assert(cs[k].id@ == other);
                        }
                    },
                }
            }
        },
    }
}

/// The conversations kept in memory.
pub struct ConversationMemoryStore {
    conversations: Vec<Conversation>,
    max_conversations: usize,
}

impl ConversationMemoryStore {
    /// The conversations, in the order they were first stored.
    pub closed spec fn conversations_view(&self) -> Seq<Conversation> {
        self.conversations@
    }

    /// The most conversations kept.
    pub closed spec fn capacity(&self) -> nat {
        self.max_conversations as nat
    }

    /// No identifier occurs twice.
    pub open spec fn wf(&self) -> bool {
        distinct_ids(self.conversations_view())
    }

    /// An empty store keeping at most `max_conversations`.
    pub fn new(max_conversations: usize) -> (s: Self)
        ensures
            s.wf(),
            s.conversations_view() == Seq::<Conversation>::empty(),
            s.capacity() == max_conversations,
    {
        ConversationMemoryStore { conversations: Vec::new(), max_conversations }
    }

    fn position(&self, id: &str) -> (r: Option<usize>)
        requires
            self.wf(),
        ensures
            match conversation_position(self.conversations_view(), id@) {
                None => r is None,
                Some(i) => r is Some && r->0 == i,
            },
    {
        let wanted = String::from_str(id);
        let mut i: usize = 0;
        while i < self.conversations.len()
            invariant
                i <= self.conversations@.len(),
                wanted@ == id@,
                distinct_ids(self.conversations@),
                forall|k: int| 0 <= k < i ==> self.conversations@[k].id@ != id@,
            decreases self.conversations@.len() - i,
        {
            if self.conversations[i].id == wanted {
                proof {
                    let j = conversation_position(self.conversations@, id@)->0;
                    assert(self.conversations@[j].id@ == id@);
                    assert(j == i);
                }
                return Some(i);
            }
            i = i + 1;
        }
        None
    }

    /// The conversation with the identifier, if any.
    pub fn get(&self, id: &str) -> (r: Option<&Conversation>)
        requires
            self.wf(),
        ensures
            match conversation_position(self.conversations_view(), id@) {
                None => r is None,
                Some(i) => r is Some && *r->0 == self.conversations_view()[i],
            },
    {
        match self.position(id) {
            Some(i) => Some(&self.conversations[i]),
            None => None,
        }
    }

    fn oldest_position(&self) -> (m: usize)
        requires
            self.conversations@.len() > 0,
        ensures
            m < self.conversations@.len(),
            forall|k: int| 0 <= k < self.conversations@.len() ==>
                self.conversations@[m as int].updated_at.micros <= #[trigger] self.conversations@[k].updated_at.micros,
    {
        let mut m: usize = 0;
        let mut j: usize = 1;
        while j < self.conversations.len()
            invariant
                1 <= j <= self.conversations@.len(),
                m < j,
                forall|k: int| 0 <= k < j ==>
                    self.conversations@[m as int].updated_at.micros <= #[trigger] self.conversations@[k].updated_at.micros,
            decreases self.conversations@.len() - j,
        {
            if self.conversations[j].updated_at.micros < self.conversations[m].updated_at.micros {
                m = j;
            }
            j = j + 1;
        }
        m
    }

    /// Stores a conversation, replacing the one with its identifier, then
    /// drops the least recently updated conversations beyond the capacity.
    pub fn save_conversation(&mut self, conversation: Conversation)
        requires
            old(self).wf(),
        ensures
            final(self).wf(),
            final(self).capacity() == old(self).capacity(),
            pruned(upserted(old(self).conversations_view(), conversation), final(self).conversations_view(), old(self).capacity()),
    {
        let ghost c = conversation;
        match self.position(conversation.id.as_str()) {
            Some(i) => {
                self.conversations.set(i, conversation);
            },
            None => {
                self.conversations.push(conversation);
                proof {
                    assert forall|i: int, j: int| 0 <= i < j < self.conversations@.len() implies
                        self.conversations@[i].id@ != self.conversations@[j].id@ by {
                        if j == self.conversations@.len() - 1 {
                            assert(old(self).conversations@[i].id@ != c.id@);
                        }
                    }
                }
            },
        }
        let ghost all = self.conversations@;
        assert(all == upserted(old(self).conversations@, c));
        while self.conversations.len() > self.max_conversations
            invariant
                distinct_ids(all),
                distinct_ids(self.conversations@),
                self.max_conversations == old(self).max_conversations,
                all.len() > self.max_conversations ==> self.conversations@.len() >= self.max_conversations,
                all.len() <= self.max_conversations ==> self.conversations@ == all,
                self.conversations@.len() <= all.len(),
                forall|k: int| 0 <= k < self.conversations@.len() ==> #[trigger] all.contains(self.conversations@[k]),
                forall|o: int, k: int|
                    0 <= o < all.len() && 0 <= k < self.conversations@.len() && !self.conversations@.contains(#[trigger] all[o])
                        ==> all[o].updated_at.micros <= (#[trigger] self.conversations@[k]).updated_at.micros,
            decreases self.conversations@.len(),
        {
            let m = self.oldest_position();
            let ghost before = self.conversations@;
            let ghost x = before[m as int];
            let _ = self.conversations.remove(m);
            proof {
                assert forall|k: int| 0 <= k < self.conversations@.len() implies #[trigger] all.contains(self.conversations@[k]) by {
                    if k < m {
                        assert(self.conversations@[k] == before[k]);
                        assert(before.contains(before[k]));
                    } else {
                        assert(self.conversations@[k] == before[k + 1]);
                        assert(before.contains(before[k + 1]));
                    }
                }
                assert forall|o: int, k: int|
                    0 <= o < all.len() && 0 <= k < self.conversations@.len() && !self.conversations@.contains(#[trigger] all[o])
                        implies all[o].updated_at.micros <= (#[trigger] self.conversations@[k]).updated_at.micros by {
                    let kk = if k < m { k } else { k + 1 };
                    assert(self.conversations@[k] == before[kk]);
                    if before.contains(all[o]) {
                        let j = choose|j: int| 0 <= j < before.len() && before[j] == all[o];
                        if j != m {
                            let jj = if j < m { j } else { j - 1 };
                            assert(self.conversations@[jj] == before[j]);
                            assert(false);
                        }
                    }
                }
            }
        }
        proof {
            assert forall|k: int| 0 <= k < self.conversations@.len() implies #[trigger] self.conversations@.contains(self.conversations@[k]) by {
            }
        }
    }

    fn newest_order(&self) -> (order: Vec<usize>)
        ensures
            is_ranking(time_keys(self.conversations@), order@),
    {
        let mut keys: Vec<u128> = Vec::new();
        let mut i: usize = 0;
        while i < self.conversations.len()
            invariant
                i <= self.conversations@.len(),
                keys@ =~= time_keys(self.conversations@).subrange(0, i as int),
            decreases self.conversations@.len() - i,
        {
            keys.push(time_key_of(self.conversations[i].updated_at));
            i = i + 1;
        }
        assert(keys@ =~= time_keys(self.conversations@));
        rank_desc(&keys)
    }

    /// The conversations of a user, most recently updated first (ties in
    /// stored order), at most `limit` of them when a non-negative limit is
    /// given.
    pub fn list_conversations(&self, user_id: &str, limit: Option<i32>) -> (r: Vec<&Conversation>)
        ensures
            exists|full: Seq<Conversation>|
                #![trigger user_listing(self.conversations_view(), user_id@, full)]
                user_listing(self.conversations_view(), user_id@, full) && deref_conversations(r@) == truncated(full, limit),
    {
        let ghost cs = self.conversations@;
        let ghost sel = |c: Conversation| c.user_id@ == user_id@;
        let order = self.newest_order();
        let wanted = String::from_str(user_id);
        let mut r: Vec<&Conversation> = Vec::new();
        let mut a: usize = 0;
        while a < order.len()
            invariant
                cs == self.conversations@,
                is_ranking(time_keys(cs), order@),
                a <= order@.len(),
                wanted@ == user_id@,
                sel == (|c: Conversation| c.user_id@ == user_id@),
                deref_conversations(r@) == order@.subrange(0, a as int).map_values(|i: usize| cs[i as int]).filter(sel),
            decreases order@.len() - a,
        {
            let c = &self.conversations[order[a]];
            let ghost prefix = order@.subrange(0, a as int).map_values(|i: usize| cs[i as int]);
            assert(order@.subrange(0, a + 1).map_values(|i: usize| cs[i as int]) =~= prefix.push(*c));
            proof {
                prefix.lemma_filter_push(*c, sel);
            }
            let ghost before = deref_conversations(r@);
            if c.user_id == wanted {
                r.push(c);
                assert(deref_conversations(r@) =~= before.push(*c));
            }
            a = a + 1;
        }
        assert(order@.subrange(0, order@.len() as int) =~= order@);
        let ghost full = deref_conversations(r@);
        assert(user_listing(cs, user_id@, full));
        match limit {
            Some(l) => {
                if l >= 0 {
                    r.truncate(l as usize);
                }
            },
            None => {},
        }
        assert(deref_conversations(r@) =~= truncated(full, limit));
        assert(user_listing(self.conversations_view(), user_id@, full));
        r
    }

    /// The conversations with a message mentioning the query (see
    /// `mentions`), most recently updated first, ties in stored order.
    pub fn search_conversations(&self, query: &str) -> (r: Vec<&Conversation>)
        ensures
            search_listing(self.conversations_view(), query@, deref_conversations(r@)),
    {
        let ghost cs = self.conversations@;
        let ghost sel = |c: Conversation| mentions(c, query@);
        let order = self.newest_order();
        let needle = to_lowercase(query);
        let mut r: Vec<&Conversation> = Vec::new();
        let mut a: usize = 0;
        while a < order.len()
            invariant
                cs == self.conversations@,
                is_ranking(time_keys(cs), order@),
                a <= order@.len(),
                needle@ == lowercase(query@),
                sel == (|c: Conversation| mentions(c, query@)),
                deref_conversations(r@) == order@.subrange(0, a as int).map_values(|i: usize| cs[i as int]).filter(sel),
            decreases order@.len() - a,
        {
            let c = &self.conversations[order[a]];
            let ghost prefix = order@.subrange(0, a as int).map_values(|i: usize| cs[i as int]);
            assert(order@.subrange(0, a + 1).map_values(|i: usize| cs[i as int]) =~= prefix.push(*c));
            proof {
                prefix.lemma_filter_push(*c, sel);
            }
            let mut found = false;
            let mut m: usize = 0;
            while m < c.messages.len() && !found
                invariant
                    m <= c.messages@.len(),
                    needle@ == lowercase(query@),
                    found ==> mentions(*c, query@),
                    !found ==> forall|k: int| 0 <= k < m ==> !is_substring(lowercase(query@), lowercase(#[trigger] c.messages@[k].content@)),
                decreases c.messages@.len() - m,
            {
                let content = to_lowercase(c.messages[m].content.as_str());
                if str_contains(content.as_str(), needle.as_str()) {
                    found = true;
                }
                m = m + 1;
            }
            let ghost before = deref_conversations(r@);
            if found {
                r.push(c);
                assert(deref_conversations(r@) =~= before.push(*c));
            }
            a = a + 1;
        }
        assert(order@.subrange(0, order@.len() as int) =~= order@);
        assert(search_listing(cs, query@, deref_conversations(r@)));
        r
    }

    /// Takes the conversation with the identifier out of the store, if
    /// there is one.
    pub fn take(&mut self, id: &str) -> (r: Option<Conversation>)
        requires
            old(self).wf(),
        ensures
            final(self).wf(),
            final(self).capacity() == old(self).capacity(),
            match conversation_position(old(self).conversations_view(), id@) {
                None => r is None && final(self).conversations_view() == old(self).conversations_view(),
                Some(i) => r == Some(old(self).conversations_view()[i])
                    && final(self).conversations_view() == old(self).conversations_view().remove(i),
            },
    {
        match self.position(id) {
            Some(i) => {
                let c = self.conversations.remove(i);
                proof {
                    let before = old(self).conversations@;
                    assert forall|a: int, b: int| 0 <= a < b < self.conversations@.len() implies
                        self.conversations@[a].id@ != self.conversations@[b].id@ by {
                        let a2 = if a < i { a } else { a + 1 };
                        let b2 = if b < i { b } else { b + 1 };
                        assert(self.conversations@[a] == before[a2]);
                        assert(self.conversations@[b] == before[b2]);
                    }
                }
                Some(c)
            },
            None => None,
        }
    }

    /// Removes the conversation with the identifier, if any.
    pub fn remove(&mut self, id: &str)
        requires
            old(self).wf(),
        ensures
            final(self).wf(),
            final(self).capacity() == old(self).capacity(),
            match conversation_position(old(self).conversations_view(), id@) {
                None => final(self).conversations_view() == old(self).conversations_view(),
                Some(i) => final(self).conversations_view() == old(self).conversations_view().remove(i),
            },
    {
        match self.position(id) {
            Some(i) => {
                let _ = self.conversations.remove(i);
            },
            None => {},
        }
    }
}

/// A new conversation of a user, with no messages, tags, summary or
/// metadata, created and updated now.
pub fn new_conversation(user_id: &str) -> (c: Conversation)
    ensures
        c.user_id@ == user_id@,
        c.messages@.len() == 0,
        c.tags@.len() == 0,
        c.summary is None,
        c.metadata@ == Seq::<(Seq<char>, Seq<char>)>::empty(),
        c.metadata.wf(),
        c.created_at == c.updated_at,
{
    let t = now();
    Conversation {
        id: new_id(),
        user_id: String::from_str(user_id),
        messages: Vec::new(),
        created_at: t,
        updated_at: t,
        tags: Vec::new(),
        summary: None,
        metadata: StringMap::new(),
    }
}

/// A new message: its role written out, its intent by name, and its
/// metadata (empty when none is given).
pub fn new_message(
    role: MessageRole,
    content: &str,
    intent: Option<FinancialQueryIntent>,
    intent_confidence: Option<u32>,
    metadata: Option<StringMap>,
) -> (m: ConversationMessage)
    ensures
        m.role@ == role.spec_label(),
        m.content@ == content@,
        match intent {
            Some(i) => m.intent is Some && m.intent->0@ == i.spec_name(),
            None => m.intent is None,
        },
        m.intent_confidence == intent_confidence,
        m.metadata is Some,
        match metadata {
            Some(md) => m.metadata->0 == md,
            None => m.metadata->0@ == Seq::<(Seq<char>, Seq<char>)>::empty() && m.metadata->0.wf(),
        },
{
    let intent_name = match intent {
        Some(i) => Some(String::from_str(i.name())),
        None => None,
    };
    let md = match metadata {
        Some(md) => md,
        None => StringMap::new(),
    };
    ConversationMessage {
        id: new_id(),
        timestamp: now(),
        role: String::from_str(role.label()),
        content: String::from_str(content),
        intent: intent_name,
        intent_confidence,
        metadata: Some(md),
    }
}

/// Appends a message to a conversation and marks it updated now; where
/// summarization is on, the summary is replaced by the message count.
pub fn append_message(conversation: &mut Conversation, message: ConversationMessage, summarize: bool)
    ensures
        final(conversation).messages@ == old(conversation).messages@.push(message),
        final(conversation).id == old(conversation).id,
        final(conversation).user_id == old(conversation).user_id,
        final(conversation).tags == old(conversation).tags,
        final(conversation).metadata == old(conversation).metadata,
        final(conversation).created_at == old(conversation).created_at,
        summarize ==> final(conversation).summary is Some
            && final(conversation).summary->0@ == message_count_summary(final(conversation).messages@.len()),
        !summarize ==> final(conversation).summary == old(conversation).summary,
{
    conversation.messages.push(message);
    conversation.updated_at = now();
    if summarize {
        let s = generate_summary(conversation);
        conversation.summary = Some(s);
    }
}

/// Two texts that may be missing are the same.
pub open spec fn same_text(a: Option<String>, b: Option<String>) -> bool {
    match (a, b) {
        (Some(x), Some(y)) => x@ == y@,
        (None, None) => true,
        _ => false,
    }
}

/// Two messages hold the same values.
pub open spec fn same_message(a: ConversationMessage, b: ConversationMessage) -> bool {
    &&& a.id@ == b.id@
    &&& a.timestamp == b.timestamp
    &&& a.role@ == b.role@
    &&& a.content@ == b.content@
    &&& same_text(a.intent, b.intent)
    &&& a.intent_confidence == b.intent_confidence
    &&& match (a.metadata, b.metadata) {
        (Some(x), Some(y)) => x@ == y@,
        (None, None) => true,
        _ => false,
    }
}

/// Two conversations hold the same values.
pub open spec fn same_conversation(a: Conversation, b: Conversation) -> bool {
    &&& a.id@ == b.id@
    &&& a.user_id@ == b.user_id@
    &&& a.messages@.len() == b.messages@.len()
    &&& forall|i: int| 0 <= i < a.messages@.len() ==> same_message(#[trigger] a.messages@[i], b.messages@[i])
    &&& a.created_at == b.created_at
    &&& a.updated_at == b.updated_at
    &&& a.tags@.map_values(|t: String| t@) == b.tags@.map_values(|t: String| t@)
    &&& same_text(a.summary, b.summary)
    &&& a.metadata@ == b.metadata@
}

fn copy_text(t: &Option<String>) -> (r: Option<String>)
    ensures
        same_text(r, *t),
{
    match t {
        Some(s) => Some(s.clone()),
        None => None,
    }
}

impl ConversationMessage {
    /// A copy of the message.
    pub fn duplicate(&self) -> (m: Self)
        ensures
            same_message(m, *self),
    {
        ConversationMessage {
            id: self.id.clone(),
            timestamp: self.timestamp,
            role: self.role.clone(),
            content: self.content.clone(),
            intent: copy_text(&self.intent),
            intent_confidence: self.intent_confidence,
            metadata: match &self.metadata {
                Some(md) => Some(md.duplicate()),
                None => None,
            },
        }
    }
}

impl Conversation {
    /// A copy of the conversation.
    pub fn duplicate(&self) -> (c: Self)
        ensures
            same_conversation(c, *self),
    {
        let mut messages: Vec<ConversationMessage> = Vec::new();
        let mut i: usize = 0;
        while i < self.messages.len()
            invariant
                i <= self.messages@.len(),
                messages@.len() == i,
                forall|k: int| 0 <= k < i ==> same_message(#[trigger] messages@[k], self.messages@[k]),
            decreases self.messages@.len() - i,
        {
            messages.push(self.messages[i].duplicate());
            i = i + 1;
        }
        let mut tags: Vec<String> = Vec::new();
        let mut j: usize = 0;
        while j < self.tags.len()
            invariant
                j <= self.tags@.len(),
                tags@.len() == j,
                forall|k: int| 0 <= k < j ==> (#[trigger] tags@[k])@ == self.tags@[k]@,
            decreases self.tags@.len() - j,
        {
            tags.push(self.tags[j].clone());
            j = j + 1;
        }
        assert(tags@.map_values(|t: String| t@) =~= self.tags@.map_values(|t: String| t@));
        Conversation {
            id: self.id.clone(),
            user_id: self.user_id.clone(),
            messages,
            created_at: self.created_at,
            updated_at: self.updated_at,
            tags,
            summary: copy_text(&self.summary),
            metadata: self.metadata.duplicate(),
        }
    }
}

/// A conversation after a message was added to it: the message last,
/// marked updated, its summary the message count where summarization is
/// on, and nothing else changed.
pub open spec fn with_message(before: Conversation, after: Conversation, message: ConversationMessage, summarize: bool) -> bool {
    &&& after.id == before.id
    &&& after.user_id == before.user_id
    &&& after.messages@.len() == before.messages@.len() + 1
    &&& after.messages@.drop_last() == before.messages@
    &&& same_message(after.messages@.last(), message)
    &&& after.created_at == before.created_at
    &&& after.tags == before.tags
    &&& after.metadata == before.metadata
    &&& summarize ==> after.summary is Some && after.summary->0@ == message_count_summary(after.messages@.len())
    &&& !summarize ==> after.summary == before.summary
}

/// The conversation's last update is `ttl` seconds or more before `now`.
pub open spec fn expired(c: Conversation, now: Timestamp, ttl: i64) -> bool {
    now.micros - c.updated_at.micros >= ttl * 1_000_000
}

/// Conversations kept under a storage configuration. This is the memory
/// copy, all that the memory storage type keeps; for the file and table
/// types the caller also keeps the persistent copy, in the file and item
/// forms of a conversation.
pub struct ConversationStorage {
    config: ConversationStorageConfig,
    memory: ConversationMemoryStore,
}

impl ConversationStorage {
    /// The conversations kept in memory.
    pub closed spec fn conversations_view(&self) -> Seq<Conversation> {
        self.memory.conversations_view()
    }

    /// The most conversations kept in memory.
    pub closed spec fn capacity(&self) -> nat {
        self.memory.capacity()
    }

    /// Whether a conversation's summary follows its messages.
    pub closed spec fn summarizes(&self) -> bool {
        self.config.enable_summarization
    }

    /// The storage type configured.
    pub closed spec fn storage_type(&self) -> StorageType {
        self.config.storage_type
    }

    /// Seconds a conversation stays readable after its last update.
    pub closed spec fn ttl_seconds(&self) -> i64 {
        self.config.memory_ttl_seconds
    }

    /// No identifier occurs twice.
    pub open spec fn wf(&self) -> bool {
        distinct_ids(self.conversations_view())
    }

    /// An empty storage with the configuration.
    pub fn new(config: ConversationStorageConfig) -> (s: Self)
        ensures
            s.wf(),
            s.conversations_view() == Seq::<Conversation>::empty(),
            s.capacity() == config.max_memory_conversations,
            s.summarizes() == config.enable_summarization,
            s.storage_type() == config.storage_type,
            s.ttl_seconds() == config.memory_ttl_seconds,
    {
        let memory = ConversationMemoryStore::new(config.max_memory_conversations);
        ConversationStorage { config, memory }
    }

    /// Stores a conversation (see `ConversationMemoryStore::save_conversation`).
    pub fn save_conversation(&mut self, conversation: Conversation)
        requires
            old(self).wf(),
        ensures
            final(self).wf(),
            final(self).capacity() == old(self).capacity(),
            final(self).summarizes() == old(self).summarizes(),
            final(self).storage_type() == old(self).storage_type(),
            final(self).ttl_seconds() == old(self).ttl_seconds(),
            pruned(upserted(old(self).conversations_view(), conversation), final(self).conversations_view(), old(self).capacity()),
    {
        self.memory.save_conversation(conversation);
    }

    /// A new conversation of the user, stored.
    pub fn create_conversation(&mut self, user_id: &str) -> (c: Conversation)
        requires
            old(self).wf(),
        ensures
            final(self).wf(),
            final(self).capacity() == old(self).capacity(),
            final(self).summarizes() == old(self).summarizes(),
            final(self).storage_type() == old(self).storage_type(),
            final(self).ttl_seconds() == old(self).ttl_seconds(),
            c.user_id@ == user_id@,
            c.messages@.len() == 0,
            c.tags@.len() == 0,
            c.summary is None,
            c.metadata@ == Seq::<(Seq<char>, Seq<char>)>::empty(),
            c.created_at == c.updated_at,
            exists|stored: Conversation| same_conversation(c, stored)
                && pruned(upserted(old(self).conversations_view(), stored), final(self).conversations_view(), old(self).capacity()),
    {
        let conversation = new_conversation(user_id);
        let copy = conversation.duplicate();
        let ghost stored = conversation;
        assert(copy.tags@.map_values(|t: String| t@).len() == copy.tags@.len());
        assert(conversation.tags@.map_values(|t: String| t@).len() == conversation.tags@.len());
        self.memory.save_conversation(conversation);
        assert(same_conversation(copy, stored));
        copy
    }

    /// The conversation with the identifier, read at `now`: not found when
    /// absent or when its last update is the time-to-live or more before
    /// `now`.
    pub fn get_conversation(&self, conversation_id: &str, now: Timestamp) -> (r: Result<&Conversation, StorageError>)
        requires
            self.wf(),
        ensures
            match conversation_position(self.conversations_view(), conversation_id@) {
                None => r == Err::<&Conversation, StorageError>(StorageError::ConversationNotFound),
                Some(i) => if expired(self.conversations_view()[i], now, self.ttl_seconds()) {
                    r == Err::<&Conversation, StorageError>(StorageError::ConversationNotFound)
                } else {
                    r is Ok && *r->Ok_0 == self.conversations_view()[i]
                },
            },
    {
        match self.memory.get(conversation_id) {
            Some(c) => {
                let age = (now.micros as i128) - (c.updated_at.micros as i128);
                if age >= (self.config.memory_ttl_seconds as i128) * 1_000_000 {
                    Err(StorageError::ConversationNotFound)
                } else {
                    Ok(c)
                }
            },
            None => Err(StorageError::ConversationNotFound),
        }
    }

    /// Adds a new message to the conversation with the identifier, read at
    /// `now` (see `get_conversation`), and stores the conversation again
    /// (see `with_message`); the message is given back.
    pub fn add_message(
        &mut self,
        conversation_id: &str,
        role: MessageRole,
        content: &str,
        intent: Option<FinancialQueryIntent>,
        intent_confidence: Option<u32>,
        metadata: Option<StringMap>,
        now: Timestamp,
    ) -> (r: Result<ConversationMessage, StorageError>)
        requires
            old(self).wf(),
        ensures
            final(self).wf(),
            final(self).capacity() == old(self).capacity(),
            final(self).summarizes() == old(self).summarizes(),
            final(self).storage_type() == old(self).storage_type(),
            final(self).ttl_seconds() == old(self).ttl_seconds(),
            match conversation_position(old(self).conversations_view(), conversation_id@) {
                None => r == Err::<ConversationMessage, StorageError>(StorageError::ConversationNotFound)
                    && final(self).conversations_view() == old(self).conversations_view(),
                Some(i) => if expired(old(self).conversations_view()[i], now, old(self).ttl_seconds()) {
                    r == Err::<ConversationMessage, StorageError>(StorageError::ConversationNotFound)
                        && final(self).conversations_view() == old(self).conversations_view()
                } else { r is Ok && {
                    let m = r->Ok_0;
                    &&& m.role@ == role.spec_label()
                    &&& m.content@ == content@
                    &&& match intent {
                        Some(x) => m.intent is Some && m.intent->0@ == x.spec_name(),
                        None => m.intent is None,
                    }
                    &&& m.intent_confidence == intent_confidence
                    &&& m.metadata is Some
                    &&& match metadata {
                        Some(md) => m.metadata->0@ == md@,
                        None => m.metadata->0@ == Seq::<(Seq<char>, Seq<char>)>::empty(),
                    }
                    &&& exists|c: Conversation| with_message(old(self).conversations_view()[i], c, m, old(self).summarizes())
                        && pruned(upserted(old(self).conversations_view().remove(i), c), final(self).conversations_view(),
                            old(self).capacity())
                } },
            },
    {
        match self.get_conversation(conversation_id, now) {
            Err(e) => return Err(e),
            Ok(_) => {},
        }
        match self.memory.take(conversation_id) {
            None => Err(StorageError::ConversationNotFound),
            Some(mut conversation) => {
                let ghost before = conversation;
                let message = new_message(role, content, intent, intent_confidence, metadata);
                let copy = message.duplicate();
                append_message(&mut conversation, message, self.config.enable_summarization);
                assert(conversation.messages@.drop_last() =~= before.messages@);
                let ghost after = conversation;
                let ghost rest = self.memory.conversations_view();
                self.memory.save_conversation(conversation);
                assert(with_message(before, after, copy, self.config.enable_summarization));
                assert(pruned(upserted(rest, after), self.conversations_view(), self.capacity()));
                Ok(copy)
            },
        }
    }

    /// Removes the conversation with the identifier, if any.
    pub fn delete_conversation(&mut self, conversation_id: &str)
        requires
            old(self).wf(),
        ensures
            final(self).wf(),
            final(self).capacity() == old(self).capacity(),
            final(self).summarizes() == old(self).summarizes(),
            final(self).storage_type() == old(self).storage_type(),
            final(self).ttl_seconds() == old(self).ttl_seconds(),
            match conversation_position(old(self).conversations_view(), conversation_id@) {
                None => final(self).conversations_view() == old(self).conversations_view(),
                Some(i) => final(self).conversations_view() == old(self).conversations_view().remove(i),
            },
    {
        self.memory.remove(conversation_id);
    }

    /// The user's conversations (see `ConversationMemoryStore::list_conversations`).
    pub fn list_conversations(&self, user_id: &str, limit: Option<i32>) -> (r: Vec<&Conversation>)
        ensures
            exists|full: Seq<Conversation>|
                #![trigger user_listing(self.conversations_view(), user_id@, full)]
                user_listing(self.conversations_view(), user_id@, full) && deref_conversations(r@) == truncated(full, limit),
    {
        let r = self.memory.list_conversations(user_id, limit);
        assert(self.conversations_view() == self.memory.conversations_view());
        r
    }

    /// The conversations mentioning the query (see
    /// `ConversationMemoryStore::search_conversations`).
    pub fn search_conversations(&self, query: &str) -> (r: Vec<&Conversation>)
        ensures
            search_listing(self.conversations_view(), query@, deref_conversations(r@)),
    {
        self.memory.search_conversations(query)
    }
}

/// A message added to a stored conversation is read back with it, last
/// among its messages, in a store with room for every conversation.
pub proof fn lemma_added_message_read_back(
    cs: Seq<Conversation>,
    i: int,
    c: Conversation,
    m: ConversationMessage,
    summarize: bool,
    kept: Seq<Conversation>,
    max: nat,
)
    requires
        distinct_ids(cs),
        0 <= i < cs.len(),
        cs.len() <= max,
        with_message(cs[i], c, m, summarize),
        pruned(upserted(cs.remove(i), c), kept, max),
    ensures
        conversation_position(kept, cs[i].id@) matches Some(k)
            && kept[k].messages@.len() == cs[i].messages@.len() + 1
            && kept[k].messages@.drop_last() == cs[i].messages@
            && same_message(kept[k].messages@.last(), m),
{
    let rest = cs.remove(i);
    assert forall|a: int, b: int| 0 <= a < b < rest.len() implies rest[a].id@ != rest[b].id@ by {
        let a2 = if a < i { a } else { a + 1 };
        let b2 = if b < i { b } else { b + 1 };
        assert(rest[a] == cs[a2]);
        assert(rest[b] == cs[b2]);
    }
    if conversation_position(rest, c.id@) is Some {
        let p = conversation_position(rest, c.id@)->0;
        let p2 = if p < i { p } else { p + 1 };
        assert(rest[p] == cs[p2]);
    }
    assert(upserted(rest, c) == rest.push(c));
    lemma_read_after_save(rest, c, kept, max, c.id@);
}

/// Once a stored conversation is deleted, reading its identifier finds
/// nothing, and reading any other identifier finds what it found before.
pub proof fn lemma_get_after_delete(cs: Seq<Conversation>, i: int, other: Seq<char>)
    requires
        distinct_ids(cs),
        0 <= i < cs.len(),
    ensures
        conversation_position(cs.remove(i), cs[i].id@) is None,
        other != cs[i].id@ ==> match conversation_position(cs, other) {
            None => conversation_position(cs.remove(i), other) is None,
            Some(j) => conversation_position(cs.remove(i), other) matches Some(k) && cs.remove(i)[k] == cs[j],
        },
{
    let rest = cs.remove(i);
    if conversation_position(rest, cs[i].id@) is Some {
        let p = conversation_position(rest, cs[i].id@)->0;
        let p2 = if p < i { p } else { p + 1 };
        assert(rest[p] == cs[p2]);
    }
    if other != cs[i].id@ {
        match conversation_position(cs, other) {
            None => {
                if conversation_position(rest, other) is Some {
                    let k = conversation_position(rest, other)->0;
                    let k2 = if k < i { k } else { k + 1 };
                    assert(rest[k] == cs[k2]);
                }
            },
            Some(j) => {
                let j2 = if j < i { j } else { j - 1 };
                assert(rest[j2] == cs[j]);
                let k = conversation_position(rest, other)->0;
                let k2 = if k < i { k } else { k + 1 };
                assert(rest[k] == cs[k2]);
                if k2 != j {
                    assert(cs[k2].id@ == other);
                }
            },
        }
    }
}

/// Once a conversation is saved in a store with room for it, listing its
/// user's conversations includes it.
pub proof fn lemma_listed_after_save(cs: Seq<Conversation>, c: Conversation, kept: Seq<Conversation>, max: nat, full: Seq<Conversation>)
    requires
        distinct_ids(cs),
        pruned(upserted(cs, c), kept, max),
        upserted(cs, c).len() <= max,
        user_listing(kept, c.user_id@, full),
    ensures
        full.contains(c),
{
    lemma_read_after_save(cs, c, kept, max, c.id@);
    let p = conversation_position(kept, c.id@)->0;
    let sel = |x: Conversation| x.user_id@ == c.user_id@;
    let order = choose|order: Seq<usize>|
        #![trigger is_ranking(time_keys(kept), order)]
        is_ranking(time_keys(kept), order) && full == order.map_values(|i: usize| kept[i as int]).filter(sel);
    assert(time_keys(kept).len() == kept.len());
    assert(occurs_in(order, p));
    let a = choose|a: int| 0 <= a < order.len() && order[a] == p;
    let mapped = order.map_values(|i: usize| kept[i as int]);
    assert(mapped[a] == c);
    mapped.filter_lemma(sel);
    assert(sel(mapped[a]));
}

} // verus!
