//! Financial entities mentioned in a conversation.

pub mod entity_extractor;
