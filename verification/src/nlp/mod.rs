//! Natural-language processing for financial conversations.

pub mod rule_based;
pub mod bedrock;
pub mod types;
pub mod conversation_manager;
pub mod knowledge_retriever;
pub mod reasoning;
pub mod conversation_storage;
pub mod conversation_summary;
pub mod financial_knowledge_base;
pub mod embeddings;
pub mod enhanced_hybrid;
pub mod hybrid;
pub mod conversation_manager_storage;
pub mod validation;
pub mod conversation_summary_bedrock;
pub mod conversation_summary_storage;
pub mod conversation_storage_dynamodb;
pub mod summary_items;
