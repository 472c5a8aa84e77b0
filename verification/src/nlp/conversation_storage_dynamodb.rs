//! The items a conversation and its messages are stored as in a key-value
//! table, and their reading back. The table itself is reached by the
//! caller.

use vstd::prelude::*;
use crate::clock::{Timestamp, from_whole_seconds, now};
use crate::json::{digits_value, digit_value, is_digit, push_significant, number_scan, NumberPhase, unit_thousandths, read_unit_thousandths};
use crate::string_map::{StringMap, stored};
use crate::text::{decimal, digit_char, to_decimal, signed_decimal, to_decimal_signed};
use super::conversation_storage::{Conversation, ConversationMessage};

verus! {

/// A value of a table item.
#[derive(Debug)]
pub enum AttributeValue {
    /// A string
    S(String),
    /// A number, as its decimal text
    N(String),
    /// A set of strings
    Ss(Vec<String>),
    /// A map
    M(Vec<(String, AttributeValue)>),
    /// A boolean
    Bool(bool),
    /// Nothing
    Null,
    /// A list
    L(Vec<AttributeValue>),
}

/// Why an item could not be read.
#[derive(Debug, Clone, Copy, PartialEq, Eq, Structural)]
pub enum TableError {
    /// The conversation item has no string `user_id`.
    InvalidUserId,
    /// A message item has no string `id`.
    InvalidMessageId,
    /// A message item has no number `timestamp`.
    InvalidMessageTimestamp,
    /// A message's timestamp is not a whole number.
    InvalidTimestampFormat,
    /// A message's timestamp lies outside the calendar.
    InvalidTimestampValue,
    /// A message item has no string `role`.
    InvalidMessageRole,
    /// A message item has no string `content`.
    InvalidMessageContent,
    /// An item of a listing has no string `conversation_id`.
    MissingConversationId,
}

/// Position of the first attribute with the key, if any.
#[verifier::opaque]
pub open spec fn attribute_position(item: Seq<(String, AttributeValue)>, key: Seq<char>) -> Option<int> {
    if exists|i: int| 0 <= i < item.len() && item[i].0@ == key {
        Some(choose|i: int| 0 <= i < item.len() && item[i].0@ == key
            && forall|k: int| 0 <= k < i ==> item[k].0@ != key)
    } else {
        None
    }
}

/// The attribute with the key, if any.
pub open spec fn attribute(item: Seq<(String, AttributeValue)>, key: Seq<char>) -> Option<AttributeValue> {
    match attribute_position(item, key) {
        Some(i) => Some(item[i].1),
        None => None,
    }
}

/// The string of the attribute, when it is a string.
pub open spec fn attribute_text(item: Seq<(String, AttributeValue)>, key: Seq<char>) -> Option<Seq<char>> {
    match attribute(item, key) {
        Some(AttributeValue::S(s)) => Some(s@),
        _ => None,
    }
}

/// The number text of the attribute, when it is a number.
pub open spec fn attribute_number(item: Seq<(String, AttributeValue)>, key: Seq<char>) -> Option<Seq<char>> {
    match attribute(item, key) {
        Some(AttributeValue::N(s)) => Some(s@),
        _ => None,
    }
}

/// The attribute with the key (see `attribute`).
pub fn get_attribute<'a>(item: &'a Vec<(String, AttributeValue)>, key: &str) -> (r: Option<&'a AttributeValue>)
    ensures
        match attribute(item@, key@) {
            Some(v) => r is Some && *r->0 == v,
            None => r is None,
        },
{
    reveal(attribute_position);
    let mut i: usize = 0;
    while i < item.len()
        invariant
            i <= item@.len(),
            forall|k: int| 0 <= k < i ==> item@[k].0@ != key@,
        decreases item@.len() - i,
    {
        if crate::json::str_equals(item[i].0.as_str(), key) {
            proof {
                reveal(attribute_position);
                assert(item@[i as int].0@ == key@);
                let j = attribute_position(item@, key@)->0;
                if j < i {
                    assert(item@[j].0@ != key@);
                }
                if j > i {
                    assert(item@[i as int].0@ != key@);
                }
            }
            return Some(&item[i].1);
        }
        i = i + 1;
    }
    proof {
        reveal(attribute_position);
    }
    None
}

pub(crate) fn text_attribute<'a>(item: &'a Vec<(String, AttributeValue)>, key: &str) -> (r: Option<&'a String>)
    ensures
        match attribute_text(item@, key@) {
            Some(t) => r is Some && r->0@ == t,
            None => r is None,
        },
{
    match get_attribute(item, key) {
        Some(AttributeValue::S(s)) => Some(s),
        _ => None,
    }
}

pub(crate) fn number_attribute<'a>(item: &'a Vec<(String, AttributeValue)>, key: &str) -> (r: Option<&'a String>)
    ensures
        match attribute_number(item@, key@) {
            Some(t) => r is Some && r->0@ == t,
            None => r is None,
        },
{
    match get_attribute(item, key) {
        Some(AttributeValue::N(s)) => Some(s),
        _ => None,
    }
}

/// A string attribute.
pub open spec fn is_text_attribute(a: (String, AttributeValue), key: Seq<char>, t: Seq<char>) -> bool {
    a.0@ == key && (a.1 matches AttributeValue::S(s) && s@ == t)
}

/// A number attribute.
pub open spec fn is_number_attribute(a: (String, AttributeValue), key: Seq<char>, t: Seq<char>) -> bool {
    a.0@ == key && (a.1 matches AttributeValue::N(s) && s@ == t)
}

/// A confidence in thousandths written as the shortest decimal of its
/// value: `0.85` for 850, `1` for 1000, `0` for 0.
pub open spec fn confidence_text(t: nat) -> Seq<char> {
    if t % 1000 == 0 {
        decimal(t / 1000)
    } else {
        crate::nlp::bedrock::thousandths_text(t)
    }
}

fn confidence_number(t: u32) -> (s: String)
    ensures
        s@ == confidence_text(t as nat),
{
    if t % 1000 == 0 {
        to_decimal((t / 1000) as u64)
    } else {
        crate::nlp::bedrock::thousandths_number(t)
    }
}

/// The views of strings.
pub open spec fn texts_view(v: Seq<String>) -> Seq<Seq<char>> {
    v.map_values(|s: String| s@)
}

/// The item a conversation is stored as: its `id` and `user_id`, its
/// `created_at` and `updated_at` in whole seconds, its `tags` as a string
/// set when it has any, and its `summary` when it has one, in that order.
pub open spec fn is_conversation_item(item: Seq<(String, AttributeValue)>, c: Conversation) -> bool {
    let has_tags = c.tags@.len() > 0;
    let summary_at: int = if has_tags { 5 } else { 4 };
    &&& item.len() == summary_at + if c.summary is Some { 1int } else { 0int }
    &&& is_text_attribute(item[0], "id"@, c.id@)
    &&& is_text_attribute(item[1], "user_id"@, c.user_id@)
    &&& is_number_attribute(item[2], "created_at"@, signed_decimal(c.created_at.spec_seconds()))
    &&& is_number_attribute(item[3], "updated_at"@, signed_decimal(c.updated_at.spec_seconds()))
    &&& has_tags ==> (item[4].0@ == "tags"@ && (item[4].1 matches AttributeValue::Ss(ts) && texts_view(ts@) == texts_view(c.tags@)))
    &&& c.summary is Some ==> is_text_attribute(item[summary_at], "summary"@, c.summary->0@)
}

pub(crate) fn text_entry(key: &str, value: String) -> (a: (String, AttributeValue))
    ensures
        a.0@ == key@,
        a.1 matches AttributeValue::S(s) && s@ == value@,
{
    (String::from_str(key), AttributeValue::S(value))
}

pub(crate) fn number_entry(key: &str, value: String) -> (a: (String, AttributeValue))
    ensures
        a.0@ == key@,
        a.1 matches AttributeValue::N(s) && s@ == value@,
{
    (String::from_str(key), AttributeValue::N(value))
}

fn clone_texts(v: &Vec<String>) -> (r: Vec<String>)
    ensures
        texts_view(r@) == texts_view(v@),
{
    let mut r: Vec<String> = Vec::new();
    let mut i: usize = 0;
    while i < v.len()
        invariant
            i <= v@.len(),
            r@.len() == i,
            forall|k: int| 0 <= k < i ==> r@[k]@ == v@[k]@,
        decreases v@.len() - i,
    {
        r.push(v[i].clone());
        i = i + 1;
    }
    assert(texts_view(r@) =~= texts_view(v@));
    r
}

/// The item a conversation is stored as (see `is_conversation_item`).
pub fn conversation_item(c: &Conversation) -> (item: Vec<(String, AttributeValue)>)
    ensures
        is_conversation_item(item@, *c),
{
    let mut item: Vec<(String, AttributeValue)> = Vec::new();
    item.push(text_entry("id", c.id.clone()));
    item.push(text_entry("user_id", c.user_id.clone()));
    item.push(number_entry("created_at", to_decimal_signed(c.created_at.seconds())));
    item.push(number_entry("updated_at", to_decimal_signed(c.updated_at.seconds())));
    if c.tags.len() > 0 {
        item.push((String::from_str("tags"), AttributeValue::Ss(clone_texts(&c.tags))));
    }
    match &c.summary {
        Some(s) => {
            item.push(text_entry("summary", s.clone()));
        },
        None => {},
    }
    item
}

/// The string map as plain values of a map attribute.
pub open spec fn is_text_map(v: AttributeValue, entries: Seq<(Seq<char>, Seq<char>)>) -> bool {
    v matches AttributeValue::M(fields) && fields@.len() == entries.len() && forall|i: int| 0 <= i < entries.len()
        ==> ((#[trigger] fields@[i]).0@ == entries[i].0 && (fields@[i].1 matches AttributeValue::S(s) && s@ == entries[i].1))
}

/// The item a message of a conversation is stored as: its `id`, the
/// `conversation_id`, its `timestamp` in whole seconds, its `role` and
/// `content`, then its `intent`, its `intent_confidence` (see
/// `confidence_text`) and its `metadata` as a string map, each when it has
/// one (metadata only when not empty), in that order.
pub open spec fn is_message_item(item: Seq<(String, AttributeValue)>, m: ConversationMessage, conversation_id: Seq<char>) -> bool {
    let intent_at: int = 5;
    let confidence_at: int = intent_at + if m.intent is Some { 1int } else { 0int };
    let metadata_at: int = confidence_at + if m.intent_confidence is Some { 1int } else { 0int };
    let has_metadata = m.metadata matches Some(md) && md@.len() > 0;
    &&& item.len() == metadata_at + if has_metadata { 1int } else { 0int }
    &&& is_text_attribute(item[0], "id"@, m.id@)
    &&& is_text_attribute(item[1], "conversation_id"@, conversation_id)
    &&& is_number_attribute(item[2], "timestamp"@, signed_decimal(m.timestamp.spec_seconds()))
    &&& is_text_attribute(item[3], "role"@, m.role@)
    &&& is_text_attribute(item[4], "content"@, m.content@)
    &&& m.intent is Some ==> is_text_attribute(item[intent_at], "intent"@, m.intent->0@)
    &&& m.intent_confidence is Some ==> is_number_attribute(item[confidence_at], "intent_confidence"@,
        confidence_text(m.intent_confidence->0 as nat))
    &&& has_metadata ==> item[metadata_at].0@ == "metadata"@ && is_text_map(item[metadata_at].1, m.metadata->0@)
}

fn text_map(m: &StringMap) -> (v: AttributeValue)
    ensures
        is_text_map(v, m@),
{
    let mut fields: Vec<(String, AttributeValue)> = Vec::new();
    let mut i: usize = 0;
    while i < m.len()
        invariant
            i <= m@.len(),
            fields@.len() == i,
            forall|k: int| 0 <= k < i ==> ((#[trigger] fields@[k]).0@ == m@[k].0 && (fields@[k].1 matches AttributeValue::S(s)
                && s@ == m@[k].1)),
        decreases m@.len() - i,
    {
        let (key, value) = m.entry_at(i);
        fields.push((key.clone(), AttributeValue::S(value.clone())));
        i = i + 1;
    }
    AttributeValue::M(fields)
}

/// The item a message of the conversation is stored as (see
/// `is_message_item`).
pub fn message_item(m: &ConversationMessage, conversation_id: &str) -> (item: Vec<(String, AttributeValue)>)
    ensures
        is_message_item(item@, *m, conversation_id@),
{
    let mut item: Vec<(String, AttributeValue)> = Vec::new();
    item.push(text_entry("id", m.id.clone()));
    item.push(text_entry("conversation_id", String::from_str(conversation_id)));
    item.push(number_entry("timestamp", to_decimal_signed(m.timestamp.seconds())));
    item.push(text_entry("role", m.role.clone()));
    item.push(text_entry("content", m.content.clone()));
    match &m.intent {
        Some(i) => {
            item.push(text_entry("intent", i.clone()));
        },
        None => {},
    }
    match m.intent_confidence {
        Some(c) => {
            item.push(number_entry("intent_confidence", confidence_number(c)));
        },
        None => {},
    }
    match &m.metadata {
        Some(md) => {
            if md.len() > 0 {
                item.push((String::from_str("metadata"), text_map(md)));
            }
        },
        None => {},
    }
    item
}

/// The sign and the digits of an integer's text: a leading `-` or `+` is
/// the sign.
pub open spec fn sign_and_digits(s: Seq<char>) -> (bool, Seq<char>) {
    if s.len() > 0 && s[0] == '-' {
        (true, s.skip(1))
    } else if s.len() > 0 && s[0] == '+' {
        (false, s.skip(1))
    } else {
        (false, s)
    }
}

/// Every character is a decimal digit.
pub open spec fn all_digits(s: Seq<char>) -> bool {
    forall|i: int| 0 <= i < s.len() ==> is_digit(s[i])
}

/// The value of a text read as `i64` by `str::parse`: an optional sign,
/// then one or more decimal digits, with a value that fits.
pub open spec fn integer_value(s: Seq<char>) -> Option<int> {
    let (negative, body) = sign_and_digits(s);
    if body.len() > 0 && all_digits(body) {
        let v: int = if negative { -(digits_value(body) as int) } else { digits_value(body) as int };
        if i64::MIN <= v <= i64::MAX {
            Some(v)
        } else {
            None
        }
    } else {
        None
    }
}

proof fn lemma_digits_value_grows(s: Seq<char>, j: int, k: int)
    requires
        0 <= j <= k <= s.len(),
    ensures
        digits_value(s.take(j)) <= digits_value(s.take(k)),
    decreases k - j,
{
    if j < k {
        lemma_digits_value_grows(s, j, k - 1);
        assert(s.take(k).drop_last() =~= s.take(k - 1));
    }
}

/// Reads an integer as `str::parse::<i64>` does (see `integer_value`).
pub fn parse_i64(s: &str) -> (r: Option<i64>)
    ensures
        match integer_value(s@) {
            Some(v) => r == Some(v as i64),
            None => r is None,
        },
{
    let cs = crate::text::chars_of(s);
    let ghost (negative, body) = sign_and_digits(s@);
    let mut start: usize = 0;
    let mut neg = false;
    if cs.len() > 0 && cs[0] == '-' {
        start = 1;
        neg = true;
    } else if cs.len() > 0 && cs[0] == '+' {
        start = 1;
    }
    assert(body =~= cs@.skip(start as int));
    if start >= cs.len() {
        return None;
    }
    let limit: u64 = 9223372036854775808u64;
    let mut acc: u64 = 0;
    let mut i: usize = start;
    while i < cs.len()
        invariant
            start <= i <= cs@.len(),
            cs@ == s@,
            body == cs@.skip(start as int),
            negative == neg,
            (negative, body) == sign_and_digits(s@),
            limit == 9223372036854775808u64,
            acc <= limit,
            acc == digits_value(body.take(i - start)),
            all_digits(body.take(i - start)),
        decreases cs@.len() - i,
    {
        let c = cs[i];
        if !crate::json::is_digit_char(c) {
            assert(body[i - start] == c);
            assert(!all_digits(body));
            return None;
        }
        let d = crate::json::digit_of(c);
        assert(body.take(i - start + 1).drop_last() =~= body.take(i - start));
        assert(body.take(i - start + 1).last() == c);
        if acc > (limit - d as u64) / 10 {
            proof {
                lemma_digits_value_grows(body, i - start + 1, body.len() as int);
                assert(body.take(body.len() as int) =~= body);
                assert(acc * 10 + d > limit) by (nonlinear_arith)
                    requires
                        acc > (limit - d) / 10,
                        d < 10,
                        limit == 9223372036854775808u64,
                ;
                assert(digits_value(body) > limit);
            }
            return None;
        }
        acc = acc * 10 + d as u64;
        i = i + 1;
        assert forall|k: int| 0 <= k < i - start implies is_digit(#[trigger] body.take(i - start)[k]) by {
            if k < i - start - 1 {
                assert(body.take(i - start)[k] == body.take(i - start - 1)[k]);
            }
        }
    }
    assert(body.take(i - start) =~= body);
    if neg {
        if acc == limit {
            Some(i64::MIN)
        } else {
            Some(-(acc as i64))
        }
    } else if acc == limit {
        None
    } else {
        Some(acc as i64)
    }
}

/// The whole seconds stored under the key, when they are there as an
/// integer.
pub open spec fn stored_seconds(item: Seq<(String, AttributeValue)>, key: Seq<char>) -> Option<int> {
    match attribute_number(item, key) {
        Some(t) => integer_value(t),
        None => None,
    }
}

/// The string entries of a map attribute, each key keeping the last value
/// given to it.
pub open spec fn text_entries(fields: Seq<(String, AttributeValue)>) -> Seq<(Seq<char>, Seq<char>)>
    decreases fields.len(),
{
    if fields.len() == 0 {
        Seq::empty()
    } else {
        let rest = text_entries(fields.drop_last());
        match fields.last().1 {
            AttributeValue::S(v) => stored(rest, fields.last().0@, v@),
            _ => rest,
        }
    }
}

/// The metadata a message item holds, when it has a map `metadata`.
pub open spec fn stored_metadata(item: Seq<(String, AttributeValue)>) -> Option<Seq<(Seq<char>, Seq<char>)>> {
    match attribute(item, "metadata"@) {
        Some(AttributeValue::M(fields)) => Some(text_entries(fields@)),
        _ => None,
    }
}

/// The intent confidence a message item holds: a number in the unit
/// interval, in thousandths rounded down.
pub open spec fn stored_confidence(item: Seq<(String, AttributeValue)>) -> Option<u32> {
    match attribute_number(item, "intent_confidence"@) {
        Some(t) => unit_thousandths(t),
        None => None,
    }
}

/// Whether `r` is what reading the message item gives: the first error
/// among a missing `id`, a missing number `timestamp`, a timestamp that is
/// not an integer, one outside the calendar, a missing `role` and a
/// missing `content`; else the message with those fields and the optional
/// `intent`, `intent_confidence` and `metadata`. Only timestamps more than
/// 8 * 10^12 seconds from the epoch can be outside the calendar.
pub open spec fn is_message_read(item: Seq<(String, AttributeValue)>, r: Result<ConversationMessage, TableError>) -> bool {
    if attribute_text(item, "id"@) is None {
        r == Err::<ConversationMessage, TableError>(TableError::InvalidMessageId)
    } else if attribute_number(item, "timestamp"@) is None {
        r == Err::<ConversationMessage, TableError>(TableError::InvalidMessageTimestamp)
    } else if stored_seconds(item, "timestamp"@) is None {
        r == Err::<ConversationMessage, TableError>(TableError::InvalidTimestampFormat)
    } else if r == Err::<ConversationMessage, TableError>(TableError::InvalidTimestampValue) {
        let secs = stored_seconds(item, "timestamp"@)->0;
        secs < -8_000_000_000_000 || secs > 8_000_000_000_000
    } else if attribute_text(item, "role"@) is None {
        r == Err::<ConversationMessage, TableError>(TableError::InvalidMessageRole)
    } else if attribute_text(item, "content"@) is None {
        r == Err::<ConversationMessage, TableError>(TableError::InvalidMessageContent)
    } else {
        &&& r is Ok
        &&& r->Ok_0.id@ == attribute_text(item, "id"@)->0
        &&& r->Ok_0.timestamp.micros == stored_seconds(item, "timestamp"@)->0 * 1_000_000
        &&& r->Ok_0.role@ == attribute_text(item, "role"@)->0
        &&& r->Ok_0.content@ == attribute_text(item, "content"@)->0
        &&& match attribute_text(item, "intent"@) {
            Some(t) => r->Ok_0.intent is Some && r->Ok_0.intent->0@ == t,
            None => r->Ok_0.intent is None,
        }
        &&& r->Ok_0.intent_confidence == stored_confidence(item)
        &&& match stored_metadata(item) {
            Some(md) => r->Ok_0.metadata is Some && r->Ok_0.metadata->0.wf() && r->Ok_0.metadata->0@ == md,
            None => r->Ok_0.metadata is None,
        }
    }
}

fn metadata_from(fields: &Vec<(String, AttributeValue)>) -> (m: StringMap)
    ensures
        m.wf(),
        m@ == text_entries(fields@),
{
    let mut m = StringMap::new();
    let mut i: usize = 0;
    while i < fields.len()
        invariant
            i <= fields@.len(),
            m.wf(),
            m@ == text_entries(fields@.take(i as int)),
        decreases fields@.len() - i,
    {
        assert(fields@.take(i + 1).drop_last() =~= fields@.take(i as int));
        match &fields[i].1 {
            AttributeValue::S(v) => {
                m.insert(fields[i].0.as_str(), v.as_str());
            },
            _ => {},
        }
        i = i + 1;
    }
    assert(fields@.take(i as int) =~= fields@);
    m
}

pub(crate) fn optional_text(item: &Vec<(String, AttributeValue)>, key: &str) -> (r: Option<String>)
    ensures
        match attribute_text(item@, key@) {
            Some(t) => r is Some && r->0@ == t,
            None => r is None,
        },
{
    match text_attribute(item, key) {
        Some(s) => Some(s.clone()),
        None => None,
    }
}

fn confidence_attribute(item: &Vec<(String, AttributeValue)>) -> (r: Option<u32>)
    ensures
        r == stored_confidence(item@),
{
    match number_attribute(item, "intent_confidence") {
        Some(t) => read_unit_thousandths(t.as_str()),
        None => None,
    }
}

fn metadata_attribute(item: &Vec<(String, AttributeValue)>) -> (r: Option<StringMap>)
    ensures
        match stored_metadata(item@) {
            Some(md) => r is Some && r->0.wf() && r->0@ == md,
            None => r is None,
        },
{
    match get_attribute(item, "metadata") {
        Some(AttributeValue::M(fields)) => Some(metadata_from(fields)),
        _ => None,
    }
}

/// Reads a message from its item (see `is_message_read`).
pub fn message_from_item(item: &Vec<(String, AttributeValue)>) -> (r: Result<ConversationMessage, TableError>)
    ensures
        is_message_read(item@, r),
{
    let id = match text_attribute(item, "id") {
        Some(s) => s,
        None => return Err(TableError::InvalidMessageId),
    };
    let timestamp_text = match number_attribute(item, "timestamp") {
        Some(s) => s,
        None => return Err(TableError::InvalidMessageTimestamp),
    };
    let secs = match parse_i64(timestamp_text.as_str()) {
        Some(v) => v,
        None => return Err(TableError::InvalidTimestampFormat),
    };
    let timestamp = match from_whole_seconds(secs) {
        Some(t) => t,
        None => return Err(TableError::InvalidTimestampValue),
    };
    let role = match text_attribute(item, "role") {
        Some(s) => s,
        None => return Err(TableError::InvalidMessageRole),
    };
    let content = match text_attribute(item, "content") {
        Some(s) => s,
        None => return Err(TableError::InvalidMessageContent),
    };
    let intent = optional_text(item, "intent");
    let intent_confidence = confidence_attribute(item);
    let metadata = metadata_attribute(item);
    Ok(ConversationMessage {
        id: id.clone(),
        timestamp,
        role: role.clone(),
        content: content.clone(),
        intent,
        intent_confidence,
        metadata,
    })
}

/// The message item reads as a message.
pub open spec fn message_readable(item: Seq<(String, AttributeValue)>) -> bool {
    exists|m: ConversationMessage| is_message_read(item, Ok(m))
}

/// Reads the messages of a conversation from their items, in order; the
/// first item that cannot be read gives its error (see
/// `is_message_read`).
pub fn messages_from_items(items: &Vec<Vec<(String, AttributeValue)>>) -> (r: Result<Vec<ConversationMessage>, TableError>)
    ensures
        match r {
            Ok(ms) => ms@.len() == items@.len() && forall|i: int| 0 <= i < items@.len()
                ==> is_message_read(#[trigger] items@[i]@, Ok(ms@[i])),
            Err(e) => exists|i: int| 0 <= i < items@.len() && is_message_read(#[trigger] items@[i]@, Err(e))
                && forall|k: int| 0 <= k < i ==> #[trigger] message_readable(items@[k]@),
        },
{
    let mut messages: Vec<ConversationMessage> = Vec::new();
    let mut i: usize = 0;
    while i < items.len()
        invariant
            i <= items@.len(),
            messages@.len() == i,
            forall|k: int| 0 <= k < i ==> is_message_read(#[trigger] items@[k]@, Ok(messages@[k])),
        decreases items@.len() - i,
    {
        match message_from_item(&items[i]) {
            Ok(m) => {
                messages.push(m);
            },
            Err(e) => {
                assert forall|k: int| 0 <= k < i implies #[trigger] message_readable(items@[k]@) by {
                    assert(is_message_read(items@[k]@, Ok(messages@[k])));
                }
                return Err(e);
            },
        }
        i = i + 1;
    }
    Ok(messages)
}

/// The tags a conversation item holds: its string set `tags`, or none.
pub open spec fn stored_tags(item: Seq<(String, AttributeValue)>) -> Seq<Seq<char>> {
    match attribute(item, "tags"@) {
        Some(AttributeValue::Ss(ts)) => texts_view(ts@),
        _ => Seq::empty(),
    }
}

/// The stored whole seconds of a conversation item lie between the epoch
/// and 8 * 10^12 seconds after it, when they are there.
pub open spec fn seconds_in_range(item: Seq<(String, AttributeValue)>, key: Seq<char>) -> bool {
    stored_seconds(item, key) matches Some(v) ==> 0 <= v <= 8_000_000_000_000
}

fn stored_time(item: &Vec<(String, AttributeValue)>, key: &str) -> (t: Timestamp)
    requires
        seconds_in_range(item@, key@),
    ensures
        stored_seconds(item@, key@) matches Some(v) ==> t.micros == v * 1_000_000,
{
    let secs = match number_attribute(item, key) {
        Some(n) => parse_i64(n.as_str()),
        None => None,
    };
    match secs {
        Some(v) => match from_whole_seconds(v) {
            Some(t) => t,
            None => now(),
        },
        None => now(),
    }
}

fn optional_tags(item: &Vec<(String, AttributeValue)>) -> (tags: Vec<String>)
    ensures
        texts_view(tags@) == stored_tags(item@),
{
    match get_attribute(item, "tags") {
        Some(AttributeValue::Ss(ts)) => clone_texts(ts),
        _ => {
            let v: Vec<String> = Vec::new();
            assert(texts_view(v@) =~= Seq::<Seq<char>>::empty());
            v
        },
    }
}

/// Whether `r` is what reading a conversation item gives: an error when
/// it has no string `user_id`, else the conversation with the identifier,
/// the messages, the stored times (a missing or unreadable one is left
/// open), tags and summary, and no metadata.
pub open spec fn is_conversation_read(
    conversation_id: Seq<char>,
    item: Seq<(String, AttributeValue)>,
    messages: Seq<ConversationMessage>,
    r: Result<Conversation, TableError>,
) -> bool {
    &&& attribute_text(item, "user_id"@) is None <==> r is Err
    &&& r is Err ==> r == Err::<Conversation, TableError>(TableError::InvalidUserId)
    &&& r matches Ok(c) ==> {
        &&& c.id@ == conversation_id
        &&& c.user_id@ == attribute_text(item, "user_id"@)->0
        &&& c.messages@ == messages
        &&& stored_seconds(item, "created_at"@) matches Some(v) ==> c.created_at.micros == v * 1_000_000
        &&& stored_seconds(item, "updated_at"@) matches Some(v) ==> c.updated_at.micros == v * 1_000_000
        &&& texts_view(c.tags@) == stored_tags(item)
        &&& match attribute_text(item, "summary"@) {
            Some(t) => c.summary is Some && c.summary->0@ == t,
            None => c.summary is None,
        }
        &&& c.metadata.wf()
        &&& c.metadata@ == Seq::<(Seq<char>, Seq<char>)>::empty()
    }
}

/// Reads a conversation from its item and its messages, which are read
/// from their own items (see `messages_from_items`). The item must hold a
/// string `user_id`; the times stored as whole seconds are read back, and
/// a missing or unreadable one is the current time.
pub fn conversation_from_item(conversation_id: &str, item: &Vec<(String, AttributeValue)>, messages: Vec<ConversationMessage>) -> (r: Result<Conversation, TableError>)
    requires
        seconds_in_range(item@, "created_at"@),
        seconds_in_range(item@, "updated_at"@),
    ensures
        is_conversation_read(conversation_id@, item@, messages@, r),
{
    let user_id = match text_attribute(item, "user_id") {
        Some(s) => s.clone(),
        None => return Err(TableError::InvalidUserId),
    };
    let created_at = stored_time(item, "created_at");
    let updated_at = stored_time(item, "updated_at");
    let tags = optional_tags(item);
    let summary = optional_text(item, "summary");
    Ok(Conversation {
        id: String::from_str(conversation_id),
        user_id,
        messages,
        created_at,
        updated_at,
        tags,
        summary,
        metadata: StringMap::new(),
    })
}

/// The conversation identifiers of listed items, in order; an item without
/// a string `conversation_id` fails the listing.
pub fn conversation_ids(items: &Vec<Vec<(String, AttributeValue)>>) -> (r: Result<Vec<String>, TableError>)
    ensures
        match r {
            Ok(ids) => ids@.len() == items@.len() && forall|i: int| 0 <= i < items@.len()
                ==> attribute_text(#[trigger] items@[i]@, "conversation_id"@) == Some(ids@[i]@),
            Err(e) => e == TableError::MissingConversationId && exists|i: int| 0 <= i < items@.len()
                && (#[trigger] attribute_text(items@[i]@, "conversation_id"@)) is None,
        },
{
    let mut ids: Vec<String> = Vec::new();
    let mut i: usize = 0;
    while i < items.len()
        invariant
            i <= items@.len(),
            ids@.len() == i,
            forall|k: int| 0 <= k < i ==> attribute_text(#[trigger] items@[k]@, "conversation_id"@) == Some(ids@[k]@),
        decreases items@.len() - i,
    {
        match text_attribute(&items[i], "conversation_id") {
            Some(s) => {
                ids.push(s.clone());
            },
            None => {
                return Err(TableError::MissingConversationId);
            },
        }
        i = i + 1;
    }
    Ok(ids)
}

/// Significant digits: the digits with leading zeros left out.
pub open spec fn significant(ds: Seq<char>) -> Seq<char>
    decreases ds.len(),
{
    if ds.len() == 0 {
        Seq::empty()
    } else {
        push_significant(significant(ds.drop_last()), ds.last())
    }
}

proof fn lemma_significant_value(ds: Seq<char>)
    requires
        all_digits(ds),
    ensures
        digits_value(significant(ds)) == digits_value(ds),
        significant(ds).len() <= ds.len(),
    decreases ds.len(),
{
    if ds.len() > 0 {
        let rest = ds.drop_last();
        assert(all_digits(rest)) by {
            assert forall|i: int| 0 <= i < rest.len() implies is_digit(rest[i]) by {
                assert(rest[i] == ds[i]);
            }
        }
        lemma_significant_value(rest);
        let sig = significant(rest);
        let c = ds.last();
        if !(sig.len() == 0 && c == '0') {
            assert(sig.push(c).drop_last() =~= sig);
        }
    }
}

proof fn lemma_scan_fraction(ds: Seq<char>)
    requires
        all_digits(ds),
        ds.len() > 0,
    ensures
        number_scan(seq!['0', '.'] + ds) == (NumberPhase::Fraction, false, significant(ds), ds.len(), false, Seq::<char>::empty()),
    decreases ds.len(),
{
    let t = seq!['0', '.'] + ds;
    assert(t.drop_last() =~= seq!['0', '.'] + ds.drop_last());
    assert(t.last() == ds.last());
    assert(is_digit(ds[ds.len() - 1]));
    if ds.len() == 1 {
        let p = seq!['0', '.'];
        assert(p.drop_last() =~= seq!['0']);
        assert(seq!['0'].drop_last() =~= Seq::<char>::empty());
        assert(seq!['0'].last() == '0');
        assert(p.last() == '.');
        assert(is_digit('0'));
        assert(number_scan(Seq::<char>::empty()) == (NumberPhase::Start, false, Seq::<char>::empty(), 0nat, false, Seq::<char>::empty()));
        assert(push_significant(Seq::<char>::empty(), '0') == Seq::<char>::empty());
        assert(ds.drop_last() =~= Seq::<char>::empty());
        assert(seq!['0', '.'] + ds.drop_last() =~= p);
        assert(number_scan(seq!['0']) == (NumberPhase::Integer, false, Seq::<char>::empty(), 0nat, false, Seq::<char>::empty()));
        assert(number_scan(p) == (NumberPhase::Point, false, Seq::<char>::empty(), 0nat, false, Seq::<char>::empty()));
    } else {
        let rest = ds.drop_last();
        assert(all_digits(rest)) by {
            assert forall|i: int| 0 <= i < rest.len() implies is_digit(rest[i]) by {
                assert(rest[i] == ds[i]);
            }
        }
        lemma_scan_fraction(rest);
    }
}

proof fn lemma_digit_char(d: nat)
    requires
        d < 10,
    ensures
        is_digit(digit_char(d)),
        digit_value(digit_char(d)) == d,
{
}

/// The digits after the point of a confidence below one that is not zero.
proof fn lemma_fraction_digits(f: nat)
    requires
        0 < f < 1000,
    ensures
        all_digits(crate::nlp::bedrock::fraction_digits(f)),
        1 <= crate::nlp::bedrock::fraction_digits(f).len() <= 3,
        digits_value(crate::nlp::bedrock::fraction_digits(f))
            * (if crate::nlp::bedrock::fraction_digits(f).len() == 1 { 100int }
               else if crate::nlp::bedrock::fraction_digits(f).len() == 2 { 10int } else { 1int }) == f,
{
    reveal_with_fuel(digits_value, 4);
    reveal_strlit("0");
    let ds = crate::nlp::bedrock::fraction_digits(f);
    if f % 100 == 0 {
        lemma_digit_char(f / 100);
        assert(ds =~= seq![digit_char(f / 100)]);
        assert(ds.drop_last() =~= Seq::<char>::empty());
    } else if f % 10 == 0 {
        let n = f / 10;
        if n < 10 {
            lemma_digit_char(n);
            assert(ds =~= seq!['0', digit_char(n)]);
            assert(ds.drop_last() =~= seq!['0']);
            assert(seq!['0'].drop_last() =~= Seq::<char>::empty());
        } else {
            lemma_digit_char(n / 10);
            lemma_digit_char(n % 10);
            assert(decimal(n / 10) == seq![digit_char(n / 10)]);
            assert(ds =~= seq![digit_char(n / 10), digit_char(n % 10)]);
            assert(ds.drop_last() =~= seq![digit_char(n / 10)]);
            assert(seq![digit_char(n / 10)].drop_last() =~= Seq::<char>::empty());
        }
    } else {
        let n = f / 10;
        let c = f % 10;
        lemma_digit_char(c);
        let two = crate::nlp::bedrock::two_digits(n);
        if n < 10 {
            lemma_digit_char(n);
            assert(two =~= seq!['0', digit_char(n)]);
            assert(ds =~= seq!['0', digit_char(n), digit_char(c)]);
            assert(ds.drop_last() =~= seq!['0', digit_char(n)]);
            assert(seq!['0', digit_char(n)].drop_last() =~= seq!['0']);
            assert(seq!['0'].drop_last() =~= Seq::<char>::empty());
        } else {
            lemma_digit_char(n / 10);
            lemma_digit_char(n % 10);
            assert(decimal(n / 10) == seq![digit_char(n / 10)]);
            assert(two =~= seq![digit_char(n / 10), digit_char(n % 10)]);
            assert(ds =~= seq![digit_char(n / 10), digit_char(n % 10), digit_char(c)]);
            assert(ds.drop_last() =~= seq![digit_char(n / 10), digit_char(n % 10)]);
            assert(seq![digit_char(n / 10), digit_char(n % 10)].drop_last() =~= seq![digit_char(n / 10)]);
            assert(seq![digit_char(n / 10)].drop_last() =~= Seq::<char>::empty());
        }
    }
}

proof fn lemma_push_zero(s: Seq<char>)
    ensures
        digits_value(s.push('0')) == digits_value(s) * 10,
{
    assert(s.push('0').drop_last() =~= s);
}

/// A confidence of at most one, written as the shortest decimal of its
/// value, reads back as the same number of thousandths.
pub proof fn lemma_confidence_read_back(t: nat)
    requires
        t <= 1000,
    ensures
        unit_thousandths(confidence_text(t)) == Some(t as u32),
{
    reveal_strlit(".");
    let empty = Seq::<char>::empty();
    assert(number_scan(empty) == (NumberPhase::Start, false, empty, 0nat, false, empty));
    if t == 0 || t == 1000 {
        let d: nat = t / 1000;
        let text = seq![digit_char(d)];
        assert(confidence_text(t) == text);
        assert(text.drop_last() =~= empty);
        assert(text.last() == digit_char(d));
        assert(digits_value(empty) == 0);
        if t == 0 {
            assert(push_significant(empty, '0') == empty);
            assert(number_scan(text) == (NumberPhase::Integer, false, empty, 0nat, false, empty));
            let z = crate::json::leading_digits(empty, 3);
            assert(z =~= empty.push('0').push('0').push('0'));
            lemma_push_zero(empty);
            lemma_push_zero(empty.push('0'));
            lemma_push_zero(empty.push('0').push('0'));
        } else {
            let one = seq!['1'];
            assert(push_significant(empty, '1') =~= one);
            assert(number_scan(text) == (NumberPhase::Integer, false, one, 0nat, false, empty));
            assert(crate::json::is_power_of_ten(one));
            let z = crate::json::leading_digits(one, 4);
            assert(z =~= one.push('0').push('0').push('0'));
            assert(one.drop_last() =~= empty);
            assert(digits_value(one) == 1);
            lemma_push_zero(one);
            lemma_push_zero(one.push('0'));
            lemma_push_zero(one.push('0').push('0'));
        }
    } else {
        let ds = crate::nlp::bedrock::fraction_digits(t);
        lemma_fraction_digits(t);
        assert(decimal(0) == seq!['0']);
        assert(t % 1000 == t);
        assert(confidence_text(t) =~= seq!['0', '.'] + ds);
        lemma_scan_fraction(ds);
        lemma_significant_value(ds);
        let sig = significant(ds);
        assert(digits_value(empty) == 0);
        assert(sig.len() > 0);
        let n = ds.len();
        let lead = crate::json::leading_digits(sig, (sig.len() + 3 - n) as nat);
        if n == 3 {
            assert(lead =~= sig);
        } else if n == 2 {
            assert(lead =~= sig.push('0'));
            lemma_push_zero(sig);
        } else {
            assert(lead =~= sig.push('0').push('0'));
            lemma_push_zero(sig);
            lemma_push_zero(sig.push('0'));
        }
    }
}

proof fn lemma_decimal_digits(m: nat)
    ensures
        decimal(m).len() > 0,
        all_digits(decimal(m)),
        digits_value(decimal(m)) == m,
    decreases m,
{
    lemma_digit_char(m % 10);
    if m < 10 {
        assert(decimal(m).drop_last() =~= Seq::<char>::empty());
        assert(decimal(m).last() == digit_char(m));
        assert(digits_value(Seq::<char>::empty()) == 0);
    } else {
        lemma_decimal_digits(m / 10);
        let d = decimal(m);
        assert(d.drop_last() =~= decimal(m / 10));
        assert(d.last() == digit_char(m % 10));
        assert(digits_value(d) == digits_value(decimal(m / 10)) * 10 + digit_value(digit_char(m % 10)));
        assert(digits_value(d) == m);
        assert forall|i: int| 0 <= i < d.len() implies is_digit(d[i]) by {
            if i < d.len() - 1 {
                assert(d[i] == decimal(m / 10)[i]);
            }
        }
    }
}

pub(crate) proof fn lemma_decimal_first_digit(m: nat)
    ensures
        is_digit(decimal(m)[0]),
{
    lemma_decimal_digits(m);
}

/// An integer written in decimal reads back as the same integer.
pub proof fn lemma_integer_read_back(n: i64)
    ensures
        integer_value(signed_decimal(n as int)) == Some(n as int),
{
    let t = signed_decimal(n as int);
    if n < 0 {
        let m = (-(n as int)) as nat;
        lemma_decimal_digits(m);
        assert(t.skip(1) =~= decimal(m));
    } else {
        lemma_decimal_digits(n as nat);
        assert(is_digit(t[0]));
    }
}

pub(crate) proof fn lemma_attribute_at(item: Seq<(String, AttributeValue)>, key: Seq<char>, i: int)
    requires
        0 <= i < item.len(),
        item[i].0@ == key,
        forall|k: int| 0 <= k < i ==> item[k].0@ != key,
    ensures
        attribute(item, key) == Some(item[i].1),
{
    reveal(attribute_position);
    let j = attribute_position(item, key)->0;
    if j < i {
        assert(item[j].0@ != key);
    }
    if j > i {
        assert(item[i].0@ != key);
    }
}

pub(crate) proof fn lemma_attribute_absent(item: Seq<(String, AttributeValue)>, key: Seq<char>)
    requires
        forall|k: int| 0 <= k < item.len() ==> item[k].0@ != key,
    ensures
        attribute(item, key) is None,
{
    reveal(attribute_position);
}

proof fn lemma_text_entries_prefix(fields: Seq<(String, AttributeValue)>, entries: Seq<(Seq<char>, Seq<char>)>, i: int)
    requires
        0 <= i <= entries.len(),
        fields.len() == entries.len(),
        forall|k: int| 0 <= k < entries.len() ==> ((#[trigger] fields[k]).0@ == entries[k].0 && (fields[k].1 matches AttributeValue::S(s) && s@ == entries[k].1)),
        crate::string_map::distinct_keys(entries),
    ensures
        text_entries(fields.take(i)) == entries.take(i),
    decreases i,
{
    if i == 0 {
        assert(fields.take(0) =~= Seq::<(String, AttributeValue)>::empty());
        assert(entries.take(0) =~= Seq::<(Seq<char>, Seq<char>)>::empty());
    } else {
        lemma_text_entries_prefix(fields, entries, i - 1);
        let f = fields.take(i);
        assert(f.drop_last() =~= fields.take(i - 1));
        assert(f.last() == fields[i - 1]);
        assert(fields[i - 1].0@ == entries[i - 1].0);
        let before = entries.take(i - 1);
        assert forall|k: int| 0 <= k < before.len() implies before[k].0 != entries[i - 1].0 by {
            assert(before[k] == entries[k]);
        }
        assert(crate::string_map::key_position(before, entries[i - 1].0) is None);
        assert(entries.take(i) =~= before.push(entries[i - 1]));
    }
}

/// The entries of a string map attribute written from distinct keys read
/// back as the same entries.
proof fn lemma_text_map_entries(v: AttributeValue, entries: Seq<(Seq<char>, Seq<char>)>)
    requires
        is_text_map(v, entries),
        crate::string_map::distinct_keys(entries),
    ensures
        v matches AttributeValue::M(fields) && text_entries(fields@) == entries,
{
    if let AttributeValue::M(fields) = v {
        lemma_text_entries_prefix(fields@, entries, entries.len() as int);
        assert(fields@.take(entries.len() as int) =~= fields@);
        assert(entries.take(entries.len() as int) =~= entries);
    }
}

proof fn lemma_message_keys(item: Seq<(String, AttributeValue)>, m: ConversationMessage, conversation_id: Seq<char>)
    requires
        is_message_item(item, m, conversation_id),
    ensures
        attribute(item, "id"@) == Some(item[0].1),
        attribute(item, "timestamp"@) == Some(item[2].1),
        attribute(item, "role"@) == Some(item[3].1),
        attribute(item, "content"@) == Some(item[4].1),
        m.intent is Some ==> attribute(item, "intent"@) == Some(item[5].1),
        m.intent is None ==> attribute(item, "intent"@) is None,
        m.intent_confidence is Some ==> attribute(item, "intent_confidence"@)
            == Some(item[5 + if m.intent is Some { 1int } else { 0int }].1),
        m.intent_confidence is None ==> attribute(item, "intent_confidence"@) is None,
        (m.metadata matches Some(md) && md@.len() > 0) ==> attribute(item, "metadata"@) == Some(item[item.len() - 1].1),
        !(m.metadata matches Some(md) && md@.len() > 0) ==> attribute(item, "metadata"@) is None,
{
    reveal_strlit("id");
    reveal_strlit("conversation_id");
    reveal_strlit("timestamp");
    reveal_strlit("role");
    reveal_strlit("content");
    reveal_strlit("intent");
    reveal_strlit("intent_confidence");
    reveal_strlit("metadata");
    assert forall|k: int| 0 <= k < item.len() implies {
        let n = (#[trigger] item[k]).0@.len();
        &&& k == 0 <==> n == 2
        &&& k == 1 <==> n == 15
        &&& k == 2 <==> n == 9
        &&& k == 3 <==> n == 4
        &&& k == 4 <==> n == 7
        &&& n == 6 ==> m.intent is Some && k == 5
        &&& n == 17 ==> m.intent_confidence is Some && k == 5 + if m.intent is Some { 1int } else { 0int }
        &&& n == 8 ==> (m.metadata matches Some(md) && md@.len() > 0) && k == item.len() - 1
    } by {
        assert(k == 0 || k == 1 || k == 2 || k == 3 || k == 4 || k == 5 || k == 6 || k == 7);
    }
    lemma_attribute_at(item, "id"@, 0);
    lemma_attribute_at(item, "timestamp"@, 2);
    lemma_attribute_at(item, "role"@, 3);
    lemma_attribute_at(item, "content"@, 4);
    if m.intent is Some {
        lemma_attribute_at(item, "intent"@, 5);
    } else {
        lemma_attribute_absent(item, "intent"@);
    }
    if m.intent_confidence is Some {
        lemma_attribute_at(item, "intent_confidence"@, 5 + if m.intent is Some { 1int } else { 0int });
    } else {
        lemma_attribute_absent(item, "intent_confidence"@);
    }
    if m.metadata matches Some(md) && md@.len() > 0 {
        lemma_attribute_at(item, "metadata"@, item.len() - 1);
    } else {
        lemma_attribute_absent(item, "metadata"@);
    }
}

/// The metadata a message keeps through its item: a map that is not empty.
pub open spec fn kept_metadata(m: ConversationMessage) -> Option<Seq<(Seq<char>, Seq<char>)>> {
    if m.metadata matches Some(md) && md@.len() > 0 {
        Some(m.metadata->0@)
    } else {
        None
    }
}

/// A message written as its item reads back as the same message: its
/// identifier, time, role, content, intent and confidence, and its
/// metadata when not empty. This holds for times in whole seconds within
/// 8 * 10^12 seconds of the epoch and confidences of at most one.
pub proof fn lemma_message_read_back(
    m: ConversationMessage,
    conversation_id: Seq<char>,
    item: Seq<(String, AttributeValue)>,
    r: Result<ConversationMessage, TableError>,
)
    requires
        is_message_item(item, m, conversation_id),
        is_message_read(item, r),
        m.timestamp.micros % 1_000_000 == 0,
        -8_000_000_000_000 <= m.timestamp.spec_seconds() <= 8_000_000_000_000,
        m.intent_confidence matches Some(c) ==> c <= 1000,
        m.metadata matches Some(md) ==> md.wf(),
    ensures
        r is Ok,
        r->Ok_0.id@ == m.id@,
        r->Ok_0.timestamp == m.timestamp,
        r->Ok_0.role@ == m.role@,
        r->Ok_0.content@ == m.content@,
        match m.intent {
            Some(i) => r->Ok_0.intent is Some && r->Ok_0.intent->0@ == i@,
            None => r->Ok_0.intent is None,
        },
        r->Ok_0.intent_confidence == m.intent_confidence,
        match kept_metadata(m) {
            Some(md) => r->Ok_0.metadata is Some && r->Ok_0.metadata->0@ == md,
            None => r->Ok_0.metadata is None,
        },
{
    lemma_message_keys(item, m, conversation_id);
    let secs = m.timestamp.spec_seconds();
    lemma_integer_read_back(secs as i64);
    assert(stored_seconds(item, "timestamp"@) == Some(secs));
    assert(secs * 1_000_000 == m.timestamp.micros);
    if let Some(c) = m.intent_confidence {
        lemma_confidence_read_back(c as nat);
    }
    if m.metadata matches Some(md) && md@.len() > 0 {
        lemma_text_map_entries(item[item.len() - 1].1, m.metadata->0@);
    }
}

proof fn lemma_conversation_keys(item: Seq<(String, AttributeValue)>, c: Conversation)
    requires
        is_conversation_item(item, c),
    ensures
        attribute(item, "user_id"@) == Some(item[1].1),
        attribute(item, "created_at"@) == Some(item[2].1),
        attribute(item, "updated_at"@) == Some(item[3].1),
        c.tags@.len() > 0 ==> attribute(item, "tags"@) == Some(item[4].1),
        c.tags@.len() == 0 ==> attribute(item, "tags"@) is None,
        c.summary is Some ==> attribute(item, "summary"@) == Some(item[item.len() - 1].1),
        c.summary is None ==> attribute(item, "summary"@) is None,
{
    reveal_strlit("id");
    reveal_strlit("user_id");
    reveal_strlit("created_at");
    reveal_strlit("updated_at");
    reveal_strlit("tags");
    reveal_strlit("summary");
    assert("user_id"@[0] == 'u' && "created_at"@[0] == 'c' && "updated_at"@[0] == 'u' && "summary"@[0] == 's');
    assert(item[0].0@ == "id"@);
    assert("id"@.len() == 2);
    assert("tags"@.len() == 4);
    assert("user_id"@.len() == 7);
    assert("created_at"@.len() == 10);
    assert("updated_at"@.len() == 10);
    assert("summary"@.len() == 7);
    assert forall|k: int| 0 <= k < item.len() && (#[trigger] item[k]).0@ == "user_id"@ implies k == 1 by {
        assert(k == 0 || k == 1 || k == 2 || k == 3 || k == 4 || k == 5);
        if k >= 4 {
            assert(item[k].0@ == "tags"@ || item[k].0@ == "summary"@);
            assert(item[k].0@[0] == 'u');
        }
    }
    assert forall|k: int| 0 <= k < item.len() && (#[trigger] item[k]).0@ == "created_at"@ implies k == 2 by {
        assert(k == 0 || k == 1 || k == 2 || k == 3 || k == 4 || k == 5);
    }
    assert forall|k: int| 0 <= k < item.len() && (#[trigger] item[k]).0@ == "updated_at"@ implies k == 3 by {
        assert(k == 0 || k == 1 || k == 2 || k == 3 || k == 4 || k == 5);
    }
    assert forall|k: int| 0 <= k < item.len() && (#[trigger] item[k]).0@ == "tags"@ implies c.tags@.len() > 0 && k == 4 by {
        assert(k == 0 || k == 1 || k == 2 || k == 3 || k == 4 || k == 5);
    }
    assert forall|k: int| 0 <= k < item.len() && (#[trigger] item[k]).0@ == "summary"@ implies c.summary is Some && k == item.len() - 1 by {
        assert(k == 0 || k == 1 || k == 2 || k == 3 || k == 4 || k == 5);
    }
    lemma_attribute_at(item, "user_id"@, 1);
    lemma_attribute_at(item, "created_at"@, 2);
    lemma_attribute_at(item, "updated_at"@, 3);
    if c.tags@.len() > 0 {
        lemma_attribute_at(item, "tags"@, 4);
    } else {
        lemma_attribute_absent(item, "tags"@);
    }
    if c.summary is Some {
        lemma_attribute_at(item, "summary"@, item.len() - 1);
    } else {
        lemma_attribute_absent(item, "summary"@);
    }
}

/// A conversation written as its item reads back, with its messages, as
/// the same conversation but for its metadata, which is not stored: its
/// identifier, user, times, tags and summary. This holds for times in
/// whole seconds from the epoch up to 8 * 10^12 seconds after it; such an
/// item meets what reading asks of it.
pub proof fn lemma_conversation_read_back(
    c: Conversation,
    item: Seq<(String, AttributeValue)>,
    r: Result<Conversation, TableError>,
)
    requires
        is_conversation_item(item, c),
        c.created_at.micros % 1_000_000 == 0,
        c.updated_at.micros % 1_000_000 == 0,
        0 <= c.created_at.micros <= 8_000_000_000_000_000_000,
        0 <= c.updated_at.micros <= 8_000_000_000_000_000_000,
        is_conversation_read(c.id@, item, c.messages@, r),
    ensures
        seconds_in_range(item, "created_at"@),
        seconds_in_range(item, "updated_at"@),
        r is Ok,
        r->Ok_0.id@ == c.id@,
        r->Ok_0.user_id@ == c.user_id@,
        r->Ok_0.messages@ == c.messages@,
        r->Ok_0.created_at == c.created_at,
        r->Ok_0.updated_at == c.updated_at,
        texts_view(r->Ok_0.tags@) == texts_view(c.tags@),
        match c.summary {
            Some(s) => r->Ok_0.summary is Some && r->Ok_0.summary->0@ == s@,
            None => r->Ok_0.summary is None,
        },
{
    lemma_conversation_keys(item, c);
    let created = c.created_at.spec_seconds();
    let updated = c.updated_at.spec_seconds();
    lemma_integer_read_back(created as i64);
    lemma_integer_read_back(updated as i64);
    assert(stored_seconds(item, "created_at"@) == Some(created));
    assert(stored_seconds(item, "updated_at"@) == Some(updated));
    assert(created * 1_000_000 == c.created_at.micros);
    assert(updated * 1_000_000 == c.updated_at.micros);
    if c.tags@.len() == 0 {
        assert(texts_view(c.tags@) =~= Seq::<Seq<char>>::empty());
    }
}

} // verus!
