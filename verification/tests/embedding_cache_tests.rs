use investment_management::nlp::embeddings::{
    intent_example_questions, merge_batch, missing_positions, EmbeddingCache, TitanEmbeddingConfig,
};
use investment_management::nlp::rule_based::FinancialQueryIntent;

fn config(max_cache_size: usize, ttl: i64) -> TitanEmbeddingConfig {
    TitanEmbeddingConfig {
        max_cache_size,
        cache_ttl_seconds: ttl,
        model_id: "amazon.titan-embed-text-v1".to_string(),
    }
}

fn texts(items: &[&str]) -> Vec<String> {
    items.iter().map(|s| s.to_string()).collect()
}

#[test]
fn default_cache_is_empty() {
    let cache = EmbeddingCache::new(&TitanEmbeddingConfig::default());
    assert_eq!(cache.stats(), (0, 1000));
}

#[test]
fn fresh_embeddings_are_found_and_stale_ones_are_not() {
    let mut cache = EmbeddingCache::new(&config(10, 3600));
    cache.store_at("How is my portfolio performing", 7, 1_000);
    assert_eq!(cache.lookup_at("How is my portfolio performing", 1_000), Some(7));
    assert_eq!(cache.lookup_at("How is my portfolio performing", 4_599), Some(7));
    assert_eq!(cache.lookup_at("How is my portfolio performing", 4_600), None);
    assert_eq!(cache.lookup_at("When can I retire", 1_000), None);
    assert_eq!(cache.stats(), (1, 10));
}

#[test]
fn least_recently_used_entry_leaves_a_full_cache() {
    let mut cache = EmbeddingCache::new(&config(2, 3600));
    cache.store_at("a", 1, 10);
    cache.store_at("b", 2, 20);
    assert_eq!(cache.lookup_at("a", 30), Some(1));
    cache.store_at("c", 3, 40);
    assert_eq!(cache.stats(), (2, 2));
    assert_eq!(cache.lookup_at("b", 50), None);
    assert_eq!(cache.lookup_at("a", 50), Some(1));
    assert_eq!(cache.lookup_at("c", 50), Some(3));
}

#[test]
fn storing_again_replaces_the_embedding() {
    let mut cache = EmbeddingCache::new(&config(2, 3600));
    cache.store_at("a", 1, 10);
    cache.store_at("a", 5, 20);
    assert_eq!(cache.stats(), (1, 2));
    assert_eq!(cache.lookup_at("a", 30), Some(5));
}

#[test]
fn a_cache_of_size_zero_keeps_nothing() {
    let mut cache = EmbeddingCache::new(&config(0, 3600));
    assert_eq!(cache.stats(), (0, 1));
    cache.store_at("a", 1, 10);
    assert_eq!(cache.stats(), (0, 1));
    assert_eq!(cache.lookup_at("a", 10), None);
}

#[test]
fn update_needs_one_embedding_per_text() {
    let mut cache = EmbeddingCache::new(&config(10, 3600));
    cache.update_at(&texts(&["a", "b"]), &vec![1], &vec![10, 10]);
    assert_eq!(cache.stats(), (0, 10));
    cache.update_at(&texts(&["a", "b"]), &vec![1, 2], &vec![10, 11]);
    assert_eq!(cache.stats(), (2, 10));
    assert_eq!(cache.lookup_at("b", 12), Some(2));
}

#[test]
fn update_beyond_capacity_keeps_the_most_recent() {
    let mut cache = EmbeddingCache::new(&config(2, 3600));
    cache.update_at(&texts(&["a", "b", "c"]), &vec![1, 2, 3], &vec![10, 11, 12]);
    assert_eq!(cache.stats(), (2, 2));
    assert_eq!(cache.lookup_at("a", 20), None);
    assert_eq!(cache.lookup_at("b", 20), Some(2));
    assert_eq!(cache.lookup_at("c", 20), Some(3));
}

#[test]
fn update_on_a_cache_of_size_zero_empties_it() {
    let mut cache = EmbeddingCache::new(&config(0, 3600));
    cache.update_at(&texts(&["a", "b"]), &vec![1, 2], &vec![10, 11]);
    assert_eq!(cache.stats(), (0, 1));
}

#[test]
fn invalidated_embeddings_are_not_found() {
    let mut cache = EmbeddingCache::new(&config(10, 3600));
    cache.update(&texts(&["a", "b", "c"]), &vec![1, 2, 3]);
    cache.invalidate(&texts(&["a", "c", "z"]));
    assert_eq!(cache.stats(), (1, 10));
    assert_eq!(cache.lookup("a"), None);
    assert_eq!(cache.lookup("b"), Some(2));
    assert_eq!(cache.lookup("c"), None);
}

#[test]
fn stored_now_is_found_now() {
    let mut cache = EmbeddingCache::new(&config(10, 3600));
    cache.store("What is my current asset allocation", 42);
    assert_eq!(cache.lookup("What is my current asset allocation"), Some(42));
}

/// One batch through the cache: look every text up, have the missing ones
/// made (here: numbered from `first_new`), cache them and merge.
fn batch(cache: &mut EmbeddingCache, texts: &[String], first_new: u64) -> Vec<u64> {
    let found = cache.lookup_batch(&texts.to_vec());
    let missing = missing_positions(&found);
    let missing_texts: Vec<String> = missing.iter().map(|&i| texts[i].clone()).collect();
    let new: Vec<u64> = (0..missing.len() as u64).map(|k| first_new + k).collect();
    cache.update(&missing_texts, &new);
    merge_batch(&found, &new)
}

#[test]
fn test_batch_embedding_generation() {
    let mut cache = EmbeddingCache::new(&config(10, 3600));
    let texts = vec![
        "How is my portfolio performing?".to_string(),
        "What is my current asset allocation?".to_string(),
        "When can I retire?".to_string(),
    ];

    let embeddings = batch(&mut cache, &texts, 100);
    assert_eq!(embeddings.len(), 3);

    let (cache_size, _) = cache.stats();
    assert_eq!(cache_size, 3);

    let embeddings2 = batch(&mut cache, &texts, 200);
    assert_eq!(embeddings.len(), embeddings2.len());
    for i in 0..embeddings.len() {
        assert_eq!(embeddings[i], embeddings2[i]);
    }
}

#[test]
fn batches_keep_the_order_of_their_texts() {
    let mut cache = EmbeddingCache::new(&config(10, 3600));
    cache.store_at("b", 7, 0);
    let found = cache.lookup_batch_at(&texts(&["a", "b", "c"]), &vec![10, 10, 10]);
    assert_eq!(found, vec![None, Some(7), None]);
    assert_eq!(missing_positions(&found), vec![0, 2]);
    assert_eq!(merge_batch(&found, &vec![1, 3]), vec![1, 7, 3]);
}

#[test]
fn five_intents_have_example_questions() {
    let examples = intent_example_questions();
    assert_eq!(examples.len(), 5);
    assert_eq!(examples[0], (FinancialQueryIntent::PortfolioPerformance, "How is my portfolio performing"));
    assert_eq!(examples[2], (FinancialQueryIntent::RetirementPlanning, "When can I retire"));
    assert_eq!(examples[4], (FinancialQueryIntent::GoalProgress, "Am I on track for my financial goals"));
}
