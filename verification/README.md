# investment_management

A conversational financial-advisor core whose logic is verified with Verus.

- `src/` — the verified library: pattern-based query understanding
  (`nlp::rule_based`), the hybrid and enhanced services that decide when a
  language model is asked (`nlp::hybrid`, `nlp::enhanced_hybrid`), conversation
  state and its storage form (`nlp::conversation_manager`,
  `nlp::conversation_manager_storage`, `nlp::conversation_storage`),
  summaries (`nlp::conversation_summary*`), the key-value table items that
  conversations, messages and summaries are stored as
  (`nlp::conversation_storage_dynamodb`, `nlp::summary_items`), the embedding
  cache kept in an `lru` cache (`nlp::embeddings`), knowledge retrieval and the
  knowledge base, reasoning chains, validation of model answers
  (`nlp::validation`, `json`), risk profiling and logging configuration.
  Confidences, probabilities and scores are held in thousandths.
- `tests/` — tests of the library.
- `app/` — a command-line program around the library: argument handling,
  the language-model client (Bedrock's `invoke_model`, driven by the hybrid
  service's steps), conversations kept as JSON files, knowledge-base import
  and export, and the floating-point values of extracted entities.
