//! The item a conversation summary is stored as in a key-value table, and
//! its reading back. The table itself is reached by the caller.

use vstd::prelude::*;
use crate::clock::{in_calendar, format_rfc3339, parse_rfc3339, rfc3339_text, rfc3339_instant};
use crate::text::{decimal, to_decimal, signed_decimal};
use super::conversation_storage_dynamodb::{
    AttributeValue, attribute_text, attribute_number, integer_value, parse_i64,
    is_text_attribute, is_number_attribute, lemma_integer_read_back, lemma_attribute_at,
    text_entry, number_entry, text_attribute, number_attribute,
};
use super::conversation_summary::ConversationSummary;

verus! {

/// Why a summary item could not be read.
#[derive(Debug, Clone, Copy, PartialEq, Eq, Structural)]
pub enum SummaryItemError {
    /// No string `id`.
    MissingId,
    /// No string `conversation_id`.
    MissingConversationId,
    /// Neither a string `content` nor a string `text`.
    MissingContent,
    /// No string `created_at`.
    MissingCreatedAt,
    /// The creation time is not RFC 3339 text.
    InvalidCreatedAt,
    /// The update time is not RFC 3339 text.
    InvalidUpdatedAt,
}

/// The value of a text read as `u32` by `str::parse`: an optional `+`, then
/// one or more decimal digits, with a value that fits.
pub open spec fn natural_value(s: Seq<char>) -> Option<u32> {
    if s.len() > 0 && s[0] == '-' {
        None
    } else {
        match integer_value(s) {
            Some(v) => if 0 <= v <= u32::MAX { Some(v as u32) } else { None },
            None => None,
        }
    }
}

/// Reads a natural number as `str::parse::<u32>` does (see
/// `natural_value`).
pub fn parse_u32(s: &str) -> (r: Option<u32>)
    ensures
        r == natural_value(s@),
{
    let cs = crate::text::chars_of(s);
    if cs.len() > 0 && cs[0] == '-' {
        return None;
    }
    match parse_i64(s) {
        Some(v) => if 0 <= v && v <= 4294967295 { Some(v as u32) } else { None },
        None => None,
    }
}

/// The item a summary is stored as: its `id`, `conversation_id`, a
/// `summary_type` of `Standard`, its `content`, its `version` as a number,
/// its `created_at` and `updated_at` as RFC 3339 text, and its
/// `last_message_id`, in that order. Entities, decisions and topics are
/// not stored.
pub open spec fn is_summary_item(item: Seq<(String, AttributeValue)>, s: ConversationSummary) -> bool {
    &&& item.len() == 8
    &&& is_text_attribute(item[0], "id"@, s.id@)
    &&& is_text_attribute(item[1], "conversation_id"@, s.conversation_id@)
    &&& is_text_attribute(item[2], "summary_type"@, "Standard"@)
    &&& is_text_attribute(item[3], "content"@, s.content@)
    &&& is_number_attribute(item[4], "version"@, decimal(s.version as nat))
    &&& is_text_attribute(item[5], "created_at"@, rfc3339_text(s.created_at.micros as int))
    &&& is_text_attribute(item[6], "updated_at"@, rfc3339_text(s.updated_at.micros as int))
    &&& is_text_attribute(item[7], "last_message_id"@, s.last_message_id@)
}

/// The item a summary is stored as (see `is_summary_item`).
pub fn summary_item(s: &ConversationSummary) -> (item: Vec<(String, AttributeValue)>)
    requires
        in_calendar(s.created_at),
        in_calendar(s.updated_at),
    ensures
        is_summary_item(item@, *s),
{
    let mut item: Vec<(String, AttributeValue)> = Vec::new();
    item.push(text_entry("id", s.id.clone()));
    item.push(text_entry("conversation_id", s.conversation_id.clone()));
    item.push(text_entry("summary_type", String::from_str("Standard")));
    item.push(text_entry("content", s.content.clone()));
    item.push(number_entry("version", to_decimal(s.version as u64)));
    item.push(text_entry("created_at", format_rfc3339(s.created_at)));
    item.push(text_entry("updated_at", format_rfc3339(s.updated_at)));
    item.push(text_entry("last_message_id", s.last_message_id.clone()));
    item
}

/// The summary's text: a string `content`, else a string `text`.
pub open spec fn stored_content(item: Seq<(String, AttributeValue)>) -> Option<Seq<char>> {
    match attribute_text(item, "content"@) {
        Some(t) => Some(t),
        None => attribute_text(item, "text"@),
    }
}

/// The summary's version: a number `version` that reads as `u32`, else 1.
pub open spec fn stored_version(item: Seq<(String, AttributeValue)>) -> u32 {
    match attribute_number(item, "version"@) {
        Some(t) => match natural_value(t) {
            Some(v) => v,
            None => 1,
        },
        None => 1,
    }
}

/// The text of the update time: a string `updated_at`, else that of the
/// creation time.
pub open spec fn stored_updated_text(item: Seq<(String, AttributeValue)>) -> Option<Seq<char>> {
    match attribute_text(item, "updated_at"@) {
        Some(t) => Some(t),
        None => attribute_text(item, "created_at"@),
    }
}

/// Whether `r` is what reading the summary item gives: the first error
/// among a missing `id`, a missing `conversation_id`, missing text, a
/// missing `created_at`, and creation or update times that chrono cannot
/// read as RFC 3339; else the summary with those fields, its version, its
/// `last_message_id` (empty when missing), and no entities, decisions or
/// topics.
pub open spec fn is_summary_read(item: Seq<(String, AttributeValue)>, r: Result<ConversationSummary, SummaryItemError>) -> bool {
    if attribute_text(item, "id"@) is None {
        r == Err::<ConversationSummary, SummaryItemError>(SummaryItemError::MissingId)
    } else if attribute_text(item, "conversation_id"@) is None {
        r == Err::<ConversationSummary, SummaryItemError>(SummaryItemError::MissingConversationId)
    } else if stored_content(item) is None {
        r == Err::<ConversationSummary, SummaryItemError>(SummaryItemError::MissingContent)
    } else if attribute_text(item, "created_at"@) is None {
        r == Err::<ConversationSummary, SummaryItemError>(SummaryItemError::MissingCreatedAt)
    } else if rfc3339_instant(attribute_text(item, "created_at"@)->0) is None {
        r == Err::<ConversationSummary, SummaryItemError>(SummaryItemError::InvalidCreatedAt)
    } else if rfc3339_instant(stored_updated_text(item)->0) is None {
        r == Err::<ConversationSummary, SummaryItemError>(SummaryItemError::InvalidUpdatedAt)
    } else {
        &&& r is Ok
        &&& r->Ok_0.id@ == attribute_text(item, "id"@)->0
        &&& r->Ok_0.conversation_id@ == attribute_text(item, "conversation_id"@)->0
        &&& r->Ok_0.content@ == stored_content(item)->0
        &&& r->Ok_0.version == stored_version(item)
        &&& rfc3339_instant(attribute_text(item, "created_at"@)->0) == Some(r->Ok_0.created_at.micros as int)
        &&& rfc3339_instant(stored_updated_text(item)->0) == Some(r->Ok_0.updated_at.micros as int)
        &&& r->Ok_0.last_message_id@ == match attribute_text(item, "last_message_id"@) {
            Some(t) => t,
            None => Seq::<char>::empty(),
        }
        &&& r->Ok_0.key_entities@.len() == 0
        &&& r->Ok_0.key_decisions@.len() == 0
        &&& r->Ok_0.topics@.len() == 0
    }
}

fn content_attribute(item: &Vec<(String, AttributeValue)>) -> (r: Option<&String>)
    ensures
        match stored_content(item@) {
            Some(t) => r is Some && r->0@ == t,
            None => r is None,
        },
{
    match text_attribute(item, "content") {
        Some(t) => Some(t),
        None => text_attribute(item, "text"),
    }
}

fn version_attribute(item: &Vec<(String, AttributeValue)>) -> (v: u32)
    ensures
        v == stored_version(item@),
{
    match number_attribute(item, "version") {
        Some(t) => match parse_u32(t.as_str()) {
            Some(v) => v,
            None => 1,
        },
        None => 1,
    }
}

/// Reads a summary from its item (see `is_summary_read`).
pub fn summary_from_item(item: &Vec<(String, AttributeValue)>) -> (r: Result<ConversationSummary, SummaryItemError>)
    ensures
        is_summary_read(item@, r),
{
    let id = match text_attribute(item, "id") {
        Some(t) => t.clone(),
        None => return Err(SummaryItemError::MissingId),
    };
    let conversation_id = match text_attribute(item, "conversation_id") {
        Some(t) => t.clone(),
        None => return Err(SummaryItemError::MissingConversationId),
    };
    let content = match content_attribute(item) {
        Some(t) => t.clone(),
        None => return Err(SummaryItemError::MissingContent),
    };
    let version = version_attribute(item);
    let created_text = match text_attribute(item, "created_at") {
        Some(t) => t,
        None => return Err(SummaryItemError::MissingCreatedAt),
    };
    let created_at = match parse_rfc3339(created_text.as_str()) {
        Some(t) => t,
        None => return Err(SummaryItemError::InvalidCreatedAt),
    };
    let updated_text = match text_attribute(item, "updated_at") {
        Some(t) => t,
        None => created_text,
    };
    let updated_at = match parse_rfc3339(updated_text.as_str()) {
        Some(t) => t,
        None => return Err(SummaryItemError::InvalidUpdatedAt),
    };
    let last_message_id = match text_attribute(item, "last_message_id") {
        Some(t) => t.clone(),
        None => String::new(),
    };
    Ok(ConversationSummary {
        id,
        conversation_id,
        content,
        version,
        created_at,
        updated_at,
        last_message_id,
        key_entities: Vec::new(),
        key_decisions: Vec::new(),
        topics: Vec::new(),
    })
}

proof fn lemma_natural_read_back(v: u32)
    ensures
        natural_value(decimal(v as nat)) == Some(v),
{
    lemma_integer_read_back(v as i64);
    assert(signed_decimal(v as int) == decimal(v as nat));
    crate::nlp::conversation_storage_dynamodb::lemma_decimal_first_digit(v as nat);
}

/// A summary written as its item reads back with the same identifier,
/// conversation, text, version and last message, and with the times that
/// chrono reads from the RFC 3339 text it wrote; where chrono cannot read
/// that text back, reading fails on that time.
pub proof fn lemma_summary_read_back(s: ConversationSummary, item: Seq<(String, AttributeValue)>, r: Result<ConversationSummary, SummaryItemError>)
    requires
        is_summary_item(item, s),
        is_summary_read(item, r),
    ensures
        rfc3339_instant(rfc3339_text(s.created_at.micros as int)) is None
            ==> r == Err::<ConversationSummary, SummaryItemError>(SummaryItemError::InvalidCreatedAt),
        rfc3339_instant(rfc3339_text(s.created_at.micros as int)) is Some
            && rfc3339_instant(rfc3339_text(s.updated_at.micros as int)) is None
            ==> r == Err::<ConversationSummary, SummaryItemError>(SummaryItemError::InvalidUpdatedAt),
        rfc3339_instant(rfc3339_text(s.created_at.micros as int)) is Some
            && rfc3339_instant(rfc3339_text(s.updated_at.micros as int)) is Some ==> {
            &&& r is Ok
            &&& r->Ok_0.id@ == s.id@
            &&& r->Ok_0.conversation_id@ == s.conversation_id@
            &&& r->Ok_0.content@ == s.content@
            &&& r->Ok_0.version == s.version
            &&& r->Ok_0.last_message_id@ == s.last_message_id@
            &&& rfc3339_instant(rfc3339_text(s.created_at.micros as int)) == Some(r->Ok_0.created_at.micros as int)
            &&& rfc3339_instant(rfc3339_text(s.updated_at.micros as int)) == Some(r->Ok_0.updated_at.micros as int)
        },
{
    reveal_strlit("id");
    reveal_strlit("conversation_id");
    reveal_strlit("summary_type");
    reveal_strlit("content");
    reveal_strlit("version");
    reveal_strlit("created_at");
    reveal_strlit("updated_at");
    reveal_strlit("last_message_id");
    assert("id"@.len() == 2);
    assert("conversation_id"@.len() == 15);
    assert("summary_type"@.len() == 12);
    assert("content"@.len() == 7);
    assert("version"@.len() == 7);
    assert("created_at"@.len() == 10);
    assert("updated_at"@.len() == 10);
    assert("last_message_id"@.len() == 15);
    assert("conversation_id"@[0] == 'c' && "last_message_id"@[0] == 'l');
    assert("content"@[0] == 'c' && "version"@[0] == 'v');
    assert("created_at"@[0] == 'c' && "updated_at"@[0] == 'u');
    lemma_attribute_at(item, "id"@, 0);
    lemma_attribute_at(item, "conversation_id"@, 1);
    lemma_attribute_at(item, "content"@, 3);
    lemma_attribute_at(item, "version"@, 4);
    lemma_attribute_at(item, "created_at"@, 5);
    lemma_attribute_at(item, "updated_at"@, 6);
    assert forall|k: int| 0 <= k < 7 implies item[k].0@ != "last_message_id"@ by {
        assert(k == 0 || k == 1 || k == 2 || k == 3 || k == 4 || k == 5 || k == 6);
    }
    lemma_attribute_at(item, "last_message_id"@, 7);
    lemma_natural_read_back(s.version);
}

} // verus!
