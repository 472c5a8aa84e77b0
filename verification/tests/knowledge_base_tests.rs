use investment_management::nlp::financial_knowledge_base::{
    create_default_knowledge_base, FinancialKnowledgeBase, FinancialKnowledgeBaseConfig, FinancialKnowledgeCategory,
    KnowledgeBaseError,
};
use investment_management::nlp::knowledge_retriever::{KnowledgeRetriever, KnowledgeRetrieverConfig};
use investment_management::nlp::rule_based::FinancialQueryIntent;

#[test]
fn test_create_knowledge_base() {
    let kb = create_default_knowledge_base().unwrap();
    assert!(!kb.is_empty());
}

#[test]
fn test_search() {
    let kb = create_default_knowledge_base().unwrap();
    let results = kb.search("retirement");
    assert!(!results.is_empty());
}

#[test]
fn test_search_by_intent() {
    let kb = create_default_knowledge_base().unwrap();
    let results = kb.search_by_intent(&FinancialQueryIntent::RetirementPlanning);
    assert!(!results.is_empty());
}

#[test]
fn test_to_knowledge_items() {
    let kb = create_default_knowledge_base().unwrap();
    let items = kb.to_knowledge_items();
    assert_eq!(items.len(), kb.len());
}

#[test]
fn default_base_holds_nine_entries() {
    let kb = create_default_knowledge_base().unwrap();
    assert_eq!(kb.len(), 9);
}

#[test]
fn initializing_twice_reports_a_duplicate() {
    let mut kb = FinancialKnowledgeBase::new(FinancialKnowledgeBaseConfig::default());
    assert!(kb.is_empty());
    kb.initialize().unwrap();
    assert_eq!(kb.initialize(), Err(KnowledgeBaseError::DuplicateEntry));
    assert_eq!(kb.len(), 9);
}

#[test]
fn entries_by_id_and_category() {
    let kb = create_default_knowledge_base().unwrap();
    let first = &kb.to_knowledge_items()[0];
    assert_eq!(kb.get_entry_by_id(&first.id).unwrap().title, first.title);
    assert!(kb.get_entry_by_id("no such entry").is_none());
    let categories = kb.get_categories();
    assert!(!categories.is_empty());
    for c in categories.iter() {
        assert!(!kb.get_entries_by_category(c).is_empty());
    }
    let _ = FinancialKnowledgeCategory::RetirementPlanning;
}

#[test]
fn search_with_no_match_is_empty() {
    let kb = create_default_knowledge_base().unwrap();
    assert!(kb.search("qqqqzzzz").is_empty());
}

#[test]
fn populate_retriever_adds_every_entry() {
    let kb = create_default_knowledge_base().unwrap();
    let mut retriever = KnowledgeRetriever::new(KnowledgeRetrieverConfig::default());
    kb.populate_knowledge_retriever(&mut retriever).unwrap();
    assert_eq!(retriever.get_all_items().len(), 9);
}

#[test]
fn loading_entries_skips_known_identifiers() {
    let source = create_default_knowledge_base().unwrap();
    let entries: Vec<_> = source.entries().to_vec();
    let mut kb = FinancialKnowledgeBase::new(FinancialKnowledgeBaseConfig::default());
    assert_eq!(kb.load_from_entries(entries.clone()), 0);
    assert_eq!(kb.len(), 9);
    assert_eq!(kb.load_from_entries(entries), 9);
    assert_eq!(kb.len(), 9);
    assert_eq!(kb.entries()[0].id, source.entries()[0].id);
}
