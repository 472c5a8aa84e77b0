//! Text embeddings: the model configuration and the rules of the cache
//! kept in front of the model.

use vstd::prelude::*;
use lru::LruCache;
use super::rule_based::FinancialQueryIntent;

verus! {

/// The least-recently-used cache of the `lru` crate.
#[verifier::external_type_specification]
#[verifier::external_body]
#[verifier::reject_recursive_types(K)]
#[verifier::reject_recursive_types(V)]
#[verifier::reject_recursive_types(S)]
pub struct ExLruCache<K, V, S>(LruCache<K, V, S>);

/// The hasher state an `lru` cache is built with by default.
#[verifier::external_type_specification]
#[verifier::external_body]
pub struct ExDefaultHasher(lru::DefaultHasher);

/// A cached embedding: the identifier under which the caller keeps the
/// embedding vector, and when it was cached (seconds since the epoch).
pub type CachedEmbedding = (u64, i64);

/// What an embedding cache holds, most recently used first: each key with
/// its cached embedding.
pub uninterp spec fn lru_entries(c: LruCache<String, CachedEmbedding>) -> Seq<(Seq<char>, CachedEmbedding)>;

/// The capacity an embedding cache was made with.
pub uninterp spec fn lru_capacity(c: LruCache<String, CachedEmbedding>) -> nat;

/// A new cache: `LruCache::new`. It is empty and holds at most `cap`
/// entries.
#[verifier::external_body]
fn lru_new(cap: usize) -> (c: LruCache<String, CachedEmbedding>)
    requires
        cap > 0,
    ensures
        lru_entries(c) == Seq::<(Seq<char>, CachedEmbedding)>::empty(),
        lru_capacity(c) == cap,
{
    LruCache::new(std::num::NonZeroUsize::new(cap).unwrap())
}

/// Position of the first entry with the key, if any.
pub open spec fn entry_index(es: Seq<(Seq<char>, CachedEmbedding)>, key: Seq<char>) -> Option<int> {
    if exists|i: int| 0 <= i < es.len() && es[i].0 == key {
        Some(choose|i: int| 0 <= i < es.len() && es[i].0 == key && forall|j: int| 0 <= j < i ==> es[j].0 != key)
    } else {
        None
    }
}

/// The entries after `put`: an entry with the key gets the value and
/// becomes the most recent; a new key becomes the most recent entry, and
/// when the cache is full the least recent entry leaves.
pub open spec fn put_entries(es: Seq<(Seq<char>, CachedEmbedding)>, key: Seq<char>, v: CachedEmbedding, cap: nat) -> Seq<(Seq<char>, CachedEmbedding)> {
    match entry_index(es, key) {
        Some(i) => es.remove(i).insert(0, (key, v)),
        None => if es.len() >= cap { es.drop_last().insert(0, (key, v)) } else { es.insert(0, (key, v)) },
    }
}

/// The entries after `get` finds the entry at `i`: it becomes the most
/// recent.
pub open spec fn touched(es: Seq<(Seq<char>, CachedEmbedding)>, i: int) -> Seq<(Seq<char>, CachedEmbedding)> {
    es.remove(i).insert(0, es[i])
}

/// Stores a value under a key: `LruCache::put`.
#[verifier::external_body]
fn lru_put(c: &mut LruCache<String, CachedEmbedding>, key: String, v: CachedEmbedding)
    ensures
        lru_entries(*final(c)) == put_entries(lru_entries(*old(c)), key@, v, lru_capacity(*old(c))),
        lru_capacity(*final(c)) == lru_capacity(*old(c)),
{
    c.put(key, v);
}

/// The value under a key, which becomes the most recent entry:
/// `LruCache::get`, its value copied.
#[verifier::external_body]
fn lru_get(c: &mut LruCache<String, CachedEmbedding>, key: &str) -> (r: Option<CachedEmbedding>)
    ensures
        match entry_index(lru_entries(*old(c)), key@) {
            Some(i) => r == Some(lru_entries(*old(c))[i].1) && lru_entries(*final(c)) == touched(lru_entries(*old(c)), i),
            None => r is None && lru_entries(*final(c)) == lru_entries(*old(c)),
        },
        lru_capacity(*final(c)) == lru_capacity(*old(c)),
{
    c.get(key).copied()
}

/// Removes the entry with a key, giving its value: `LruCache::pop`.
#[verifier::external_body]
fn lru_pop(c: &mut LruCache<String, CachedEmbedding>, key: &str) -> (r: Option<CachedEmbedding>)
    ensures
        match entry_index(lru_entries(*old(c)), key@) {
            Some(i) => r == Some(lru_entries(*old(c))[i].1) && lru_entries(*final(c)) == lru_entries(*old(c)).remove(i),
            None => r is None && lru_entries(*final(c)) == lru_entries(*old(c)),
        },
        lru_capacity(*final(c)) == lru_capacity(*old(c)),
{
    c.pop(key)
}

/// The number of entries: `LruCache::len`.
#[verifier::external_body]
fn lru_len(c: &LruCache<String, CachedEmbedding>) -> (n: usize)
    ensures
        n == lru_entries(*c).len(),
{
    c.len()
}

/// The capacity: `LruCache::cap`.
#[verifier::external_body]
fn lru_cap(c: &LruCache<String, CachedEmbedding>) -> (n: usize)
    ensures
        n == lru_capacity(*c),
{
    c.cap().get()
}

/// The entries, most recently used first: `LruCache::iter`, each key and
/// value copied.
#[verifier::external_body]
fn lru_items(c: &LruCache<String, CachedEmbedding>) -> (v: Vec<(String, CachedEmbedding)>)
    ensures
        v@.map_values(|e: (String, CachedEmbedding)| (e.0@, e.1)) == lru_entries(*c),
{
    let mut v = Vec::new();
    for (k, e) in c.iter() {
        v.push((k.clone(), *e));
    }
    v
}

/// Configuration for the Titan embedding model.
#[derive(Debug, Clone)]
pub struct TitanEmbeddingConfig {
    /// Maximum number of items to keep in the cache
    pub max_cache_size: usize,
    /// Time-to-live for cache entries in seconds
    pub cache_ttl_seconds: i64,
    /// Model ID to use for embeddings
    pub model_id: String,
}

impl Default for TitanEmbeddingConfig {
    fn default() -> (c: Self)
        ensures
            c.max_cache_size == 1000,
            c.cache_ttl_seconds == 3600,
            c.model_id@ == "amazon.titan-embed-text-v1"@,
    {
        TitanEmbeddingConfig {
            max_cache_size: 1000,
            cache_ttl_seconds: 3600,
            model_id: String::from_str("amazon.titan-embed-text-v1"),
        }
    }
}

/// The cache key of a text: `emb:` followed by the text.
pub fn embedding_cache_key(text: &str) -> (k: String)
    ensures
        k@ == "emb:"@ + text@,
{
    let mut k = String::from_str("emb:");
    k.append(text);
    k
}

/// Whether an embedding cached at `cached_at` (seconds) may still be used
/// at `now` (seconds): less than the time-to-live has passed.
pub fn cache_entry_fresh(now: i64, cached_at: i64, ttl_seconds: i64) -> (b: bool)
    ensures
        b == (now - cached_at < ttl_seconds),
{
    (now as i128) - (cached_at as i128) < (ttl_seconds as i128)
}

/// The capacity of the cache: the configured size, or 1 when that is 0.
pub fn cache_capacity(config: &TitanEmbeddingConfig) -> (n: usize)
    ensures
        n == if config.max_cache_size == 0 { 1 } else { config.max_cache_size },
{
    if config.max_cache_size == 0 {
        1
    } else {
        config.max_cache_size
    }
}

/// No key occurs twice.
pub open spec fn distinct_entry_keys(es: Seq<(Seq<char>, CachedEmbedding)>) -> bool {
    forall|i: int, j: int| 0 <= i < j < es.len() ==> es[i].0 != es[j].0
}

/// Position of the oldest entry: the first with the earliest time.
pub open spec fn oldest_index(es: Seq<(Seq<char>, CachedEmbedding)>) -> int
    decreases es.len(),
{
    if es.len() <= 1 {
        0
    } else {
        let j = oldest_index(es.drop_last());
        if es.last().1.1 < es[j].1.1 { es.len() - 1 } else { j }
    }
}

proof fn lemma_oldest_index(es: Seq<(Seq<char>, CachedEmbedding)>)
    requires
        es.len() > 0,
    ensures
        0 <= oldest_index(es) < es.len(),
        forall|k: int| 0 <= k < es.len() ==> es[oldest_index(es)].1.1 <= #[trigger] es[k].1.1,
        forall|k: int| 0 <= k < oldest_index(es) ==> es[oldest_index(es)].1.1 < #[trigger] es[k].1.1,
    decreases es.len(),
{
    if es.len() > 1 {
        let rest = es.drop_last();
        lemma_oldest_index(rest);
        let j = oldest_index(rest);
        assert(rest[j] == es[j]);
        let o = oldest_index(es);
        assert forall|k: int| 0 <= k < es.len() implies es[o].1.1 <= #[trigger] es[k].1.1 by {
            if k < es.len() - 1 {
                assert(rest[k] == es[k]);
            }
        }
        assert forall|k: int| 0 <= k < o implies es[o].1.1 < #[trigger] es[k].1.1 by {
            if k < es.len() - 1 {
                assert(rest[k] == es[k]);
            }
        }
    }
}

/// The entries once the oldest has left, when there are more than `max`.
pub open spec fn pruned_once(es: Seq<(Seq<char>, CachedEmbedding)>, max: nat) -> Seq<(Seq<char>, CachedEmbedding)> {
    if es.len() > max { es.remove(oldest_index(es)) } else { es }
}

/// The entries once the oldest have left, one at a time, until at most
/// `max` remain.
pub open spec fn pruned_to(es: Seq<(Seq<char>, CachedEmbedding)>, max: nat) -> Seq<(Seq<char>, CachedEmbedding)>
    decreases es.len(),
{
    let i = oldest_index(es);
    if es.len() > max && 0 <= i < es.len() { pruned_to(es.remove(i), max) } else { es }
}

/// The entries after storing each text's embedding in turn.
pub open spec fn put_all(
    es: Seq<(Seq<char>, CachedEmbedding)>,
    keys: Seq<Seq<char>>,
    values: Seq<CachedEmbedding>,
    cap: nat,
) -> Seq<(Seq<char>, CachedEmbedding)>
    decreases keys.len(),
{
    if keys.len() == 0 || values.len() == 0 {
        es
    } else {
        put_entries(put_all(es, keys.drop_last(), values.drop_last(), cap), keys.last(), values.last(), cap)
    }
}

/// What a lookup finds: the embedding under the key when it was cached
/// less than `ttl` seconds before `now`.
pub open spec fn fresh_embedding(es: Seq<(Seq<char>, CachedEmbedding)>, key: Seq<char>, now: i64, ttl: i64) -> Option<u64> {
    match entry_index(es, key) {
        Some(i) => if now - es[i].1.1 < ttl { Some(es[i].1.0) } else { None },
        None => None,
    }
}

proof fn lemma_index_of_distinct(es: Seq<(Seq<char>, CachedEmbedding)>, i: int)
    requires
        distinct_entry_keys(es),
        0 <= i < es.len(),
    ensures
        entry_index(es, es[i].0) == Some(i),
{
    let j = entry_index(es, es[i].0)->0;
    if j != i {
        if j < i {
            assert(es[j].0 != es[i].0);
        } else {
            assert(es[i].0 != es[j].0);
        }
    }
}

proof fn lemma_remove_distinct(es: Seq<(Seq<char>, CachedEmbedding)>, i: int)
    requires
        distinct_entry_keys(es),
        0 <= i < es.len(),
    ensures
        distinct_entry_keys(es.remove(i)),
{
    let r = es.remove(i);
    assert forall|a: int, b: int| 0 <= a < b < r.len() implies r[a].0 != r[b].0 by {
        let a2 = if a < i { a } else { a + 1 };
        let b2 = if b < i { b } else { b + 1 };
        assert(r[a] == es[a2]);
        assert(r[b] == es[b2]);
    }
}

proof fn lemma_front_distinct(es: Seq<(Seq<char>, CachedEmbedding)>, e: (Seq<char>, CachedEmbedding))
    requires
        distinct_entry_keys(es),
        forall|k: int| 0 <= k < es.len() ==> es[k].0 != e.0,
    ensures
        distinct_entry_keys(es.insert(0, e)),
{
    let r = es.insert(0, e);
    assert forall|a: int, b: int| 0 <= a < b < r.len() implies r[a].0 != r[b].0 by {
        assert(r[b] == es[b - 1]);
        if a > 0 {
            assert(r[a] == es[a - 1]);
        }
    }
}

proof fn lemma_put_wf(es: Seq<(Seq<char>, CachedEmbedding)>, key: Seq<char>, v: CachedEmbedding, cap: nat)
    requires
        distinct_entry_keys(es),
        es.len() <= cap,
        cap > 0,
    ensures
        distinct_entry_keys(put_entries(es, key, v, cap)),
        put_entries(es, key, v, cap).len() <= cap,
        put_entries(es, key, v, cap).len() >= es.len(),
        put_entries(es, key, v, cap)[0] == (key, v),
{
    match entry_index(es, key) {
        Some(i) => {
            lemma_remove_distinct(es, i);
            let r = es.remove(i);
            assert forall|k: int| 0 <= k < r.len() implies r[k].0 != key by {
                if k < i {
                    assert(r[k] == es[k]);
                } else {
                    assert(r[k] == es[k + 1]);
                    assert(es[i].0 != es[k + 1].0);
                }
            }
            lemma_front_distinct(r, (key, v));
        },
        None => {
            let r = if es.len() >= cap { es.drop_last() } else { es };
            assert forall|a: int, b: int| 0 <= a < b < r.len() implies r[a].0 != r[b].0 by {
                assert(r[a] == es[a] && r[b] == es[b]);
            }
            assert forall|k: int| 0 <= k < r.len() implies r[k].0 != key by {
                assert(r[k] == es[k]);
            }
            lemma_front_distinct(r, (key, v));
        },
    }
}

proof fn lemma_touched_distinct(es: Seq<(Seq<char>, CachedEmbedding)>, i: int)
    requires
        distinct_entry_keys(es),
        0 <= i < es.len(),
    ensures
        distinct_entry_keys(touched(es, i)),
        touched(es, i).len() == es.len(),
{
    lemma_remove_distinct(es, i);
    let r = es.remove(i);
    assert forall|k: int| 0 <= k < r.len() implies r[k].0 != es[i].0 by {
        if k < i {
            assert(r[k] == es[k]);
        } else {
            assert(r[k] == es[k + 1]);
        }
    }
    lemma_front_distinct(r, es[i]);
}

fn find_oldest(items: &Vec<(String, CachedEmbedding)>) -> (i: usize)
    requires
        items@.len() > 0,
    ensures
        i == oldest_index(items@.map_values(|e: (String, CachedEmbedding)| (e.0@, e.1))),
{
    let ghost es = items@.map_values(|e: (String, CachedEmbedding)| (e.0@, e.1));
    let mut best: usize = 0;
    let mut i: usize = 1;
    assert(es.take(1).len() == 1);
    while i < items.len()
        invariant
            1 <= i <= items@.len(),
            es == items@.map_values(|e: (String, CachedEmbedding)| (e.0@, e.1)),
            best < i,
            best == oldest_index(es.take(i as int)),
        decreases items@.len() - i,
    {
        let ghost before = es.take(i as int);
        let ghost after = es.take(i + 1);
        assert(after.drop_last() =~= before);
        assert(after.last() == es[i as int]);
        assert(before[best as int] == es[best as int]);
        if items[i].1.1 < items[best].1.1 {
            best = i;
        }
        i = i + 1;
    }
    assert(es.take(i as int) =~= es);
    best
}

/// The embeddings cached in front of the embedding model, by text. An
/// embedding vector is kept by the caller and known here by its
/// identifier.
pub struct EmbeddingCache {
    cache: LruCache<String, CachedEmbedding>,
    max_cache_size: usize,
    ttl_seconds: i64,
}

impl EmbeddingCache {
    /// The entries, most recently used first, keyed by `emb:` and the text.
    pub closed spec fn entries(&self) -> Seq<(Seq<char>, CachedEmbedding)> {
        lru_entries(self.cache)
    }

    /// The capacity of the underlying cache.
    pub closed spec fn capacity(&self) -> nat {
        lru_capacity(self.cache)
    }

    /// The configured maximum size.
    pub closed spec fn max_size(&self) -> nat {
        self.max_cache_size as nat
    }

    /// The configured time-to-live, in seconds.
    pub closed spec fn ttl(&self) -> i64 {
        self.ttl_seconds
    }

    /// The cache holds each key once and no more entries than its
    /// capacity, which is the configured size or 1 when that is 0.
    pub open spec fn wf(&self) -> bool {
        &&& distinct_entry_keys(self.entries())
        &&& self.entries().len() <= self.capacity()
        &&& self.capacity() == if self.max_size() == 0 { 1 } else { self.max_size() }
    }

    /// An empty cache for the configuration.
    pub fn new(config: &TitanEmbeddingConfig) -> (c: Self)
        ensures
            c.wf(),
            c.entries() == Seq::<(Seq<char>, CachedEmbedding)>::empty(),
            c.max_size() == config.max_cache_size,
            c.ttl() == config.cache_ttl_seconds,
    {
        EmbeddingCache {
            cache: lru_new(cache_capacity(config)),
            max_cache_size: config.max_cache_size,
            ttl_seconds: config.cache_ttl_seconds,
        }
    }
}

/// The cache key of each text.
pub open spec fn cache_keys(texts: Seq<String>) -> Seq<Seq<char>> {
    texts.map_values(|t: String| "emb:"@ + t@)
}

/// Each embedding with the time it was cached.
pub open spec fn cached_values(embeddings: Seq<u64>, times: Seq<i64>) -> Seq<CachedEmbedding> {
    Seq::new(embeddings.len(), |i: int| (embeddings[i], times[i]))
}

/// The entries once the entry with the key, if any, has left.
pub open spec fn without_key(es: Seq<(Seq<char>, CachedEmbedding)>, key: Seq<char>) -> Seq<(Seq<char>, CachedEmbedding)> {
    match entry_index(es, key) {
        Some(i) => es.remove(i),
        None => es,
    }
}

/// The entries once each key has left in turn.
pub open spec fn without_keys(es: Seq<(Seq<char>, CachedEmbedding)>, keys: Seq<Seq<char>>) -> Seq<(Seq<char>, CachedEmbedding)>
    decreases keys.len(),
{
    if keys.len() == 0 {
        es
    } else {
        without_key(without_keys(es, keys.drop_last()), keys.last())
    }
}

impl EmbeddingCache {
    fn prune_once(&mut self)
        requires
            old(self).wf(),
        ensures
            final(self).wf(),
            final(self).entries() == pruned_once(old(self).entries(), old(self).max_size()),
            final(self).capacity() == old(self).capacity(),
            final(self).max_size() == old(self).max_size(),
            final(self).ttl() == old(self).ttl(),
    {
        if lru_len(&self.cache) > self.max_cache_size {
            let items = lru_items(&self.cache);
            let ghost es = lru_entries(self.cache);
            assert(items@.len() == es.len());
            let i = find_oldest(&items);
            proof {
                lemma_oldest_index(es);
                assert(items@[i as int].0@ == es[i as int].0);
                lemma_index_of_distinct(es, i as int);
                lemma_remove_distinct(es, i as int);
            }
            let _ = lru_pop(&mut self.cache, items[i].0.as_str());
        }
    }

    /// The embedding cached for the text at `now` (seconds): the entry
    /// under `emb:` and the text, which becomes the most recently used,
    /// when it was cached less than the time-to-live before.
    pub fn lookup_at(&mut self, text: &str, now: i64) -> (r: Option<u64>)
        requires
            old(self).wf(),
        ensures
            final(self).wf(),
            r == fresh_embedding(old(self).entries(), "emb:"@ + text@, now, old(self).ttl()),
            final(self).entries() == match entry_index(old(self).entries(), "emb:"@ + text@) {
                Some(i) => touched(old(self).entries(), i),
                None => old(self).entries(),
            },
            final(self).max_size() == old(self).max_size(),
            final(self).ttl() == old(self).ttl(),
    {
        let key = embedding_cache_key(text);
        let found = lru_get(&mut self.cache, key.as_str());
        proof {
            if let Some(i) = entry_index(old(self).entries(), key@) {
                lemma_touched_distinct(old(self).entries(), i);
            }
        }
        match found {
            Some((embedding, cached_at)) => {
                if cache_entry_fresh(now, cached_at, self.ttl_seconds) {
                    Some(embedding)
                } else {
                    None
                }
            },
            None => None,
        }
    }

    /// The embedding cached for the text, now (see `lookup_at`).
    pub fn lookup(&mut self, text: &str) -> (r: Option<u64>)
        requires
            old(self).wf(),
        ensures
            final(self).wf(),
            exists|now: i64| r == fresh_embedding(old(self).entries(), "emb:"@ + text@, now, old(self).ttl()),
            final(self).entries() == match entry_index(old(self).entries(), "emb:"@ + text@) {
                Some(i) => touched(old(self).entries(), i),
                None => old(self).entries(),
            },
            final(self).max_size() == old(self).max_size(),
            final(self).ttl() == old(self).ttl(),
    {
        let now = crate::clock::now().seconds();
        self.lookup_at(text, now)
    }

    /// Caches the embedding of the text at `now` (seconds) as the most
    /// recently used entry; when the cache then holds more than the
    /// configured size, the entry cached earliest leaves.
    pub fn store_at(&mut self, text: &str, embedding: u64, now: i64)
        requires
            old(self).wf(),
        ensures
            final(self).wf(),
            final(self).entries() == pruned_once(
                put_entries(old(self).entries(), "emb:"@ + text@, (embedding, now), old(self).capacity()),
                old(self).max_size(),
            ),
            final(self).max_size() == old(self).max_size(),
            final(self).ttl() == old(self).ttl(),
    {
        let key = embedding_cache_key(text);
        proof {
            lemma_put_wf(old(self).entries(), key@, (embedding, now), old(self).capacity());
        }
        lru_put(&mut self.cache, key, (embedding, now));
        self.prune_once();
    }

    /// Caches the embedding of the text, now (see `store_at`).
    pub fn store(&mut self, text: &str, embedding: u64)
        requires
            old(self).wf(),
        ensures
            final(self).wf(),
            exists|now: i64| final(self).entries() == pruned_once(
                put_entries(old(self).entries(), "emb:"@ + text@, (embedding, now), old(self).capacity()),
                old(self).max_size(),
            ),
            final(self).max_size() == old(self).max_size(),
            final(self).ttl() == old(self).ttl(),
    {
        let now = crate::clock::now().seconds();
        self.store_at(text, embedding, now);
    }

    /// The number of entries and the capacity.
    pub fn stats(&self) -> (r: (usize, usize))
        ensures
            r.0 == self.entries().len(),
            r.1 == self.capacity(),
    {
        (lru_len(&self.cache), lru_cap(&self.cache))
    }

    /// Caches the embedding of each text in turn, each at its own time
    /// (seconds); then, while the cache holds more than the configured
    /// size, the entry cached earliest leaves. Nothing changes when there
    /// are not as many embeddings as texts.
    pub fn update_at(&mut self, texts: &Vec<String>, embeddings: &Vec<u64>, times: &Vec<i64>)
        requires
            old(self).wf(),
            times@.len() == texts@.len(),
        ensures
            final(self).wf(),
            texts@.len() != embeddings@.len() ==> final(self).entries() == old(self).entries(),
            texts@.len() == embeddings@.len() ==> final(self).entries() == pruned_to(
                put_all(old(self).entries(), cache_keys(texts@), cached_values(embeddings@, times@), old(self).capacity()),
                old(self).max_size(),
            ),
            final(self).max_size() == old(self).max_size(),
            final(self).ttl() == old(self).ttl(),
    {
        if texts.len() != embeddings.len() {
            return;
        }
        let ghost start = self.entries();
        let ghost cap = self.capacity();
        let mut i: usize = 0;
        while i < texts.len()
            invariant
                i <= texts@.len(),
                texts@.len() == embeddings@.len(),
                times@.len() == texts@.len(),
                self.wf(),
                self.capacity() == cap,
                self.max_size() == old(self).max_size(),
                self.ttl() == old(self).ttl(),
                self.entries() == put_all(start, cache_keys(texts@.take(i as int)),
                    cached_values(embeddings@.take(i as int), times@.take(i as int)), cap),
            decreases texts@.len() - i,
        {
            let key = embedding_cache_key(texts[i].as_str());
            proof {
                let ks = cache_keys(texts@.take(i + 1));
                let vs = cached_values(embeddings@.take(i + 1), times@.take(i + 1));
                assert(ks.drop_last() =~= cache_keys(texts@.take(i as int)));
                assert(vs.drop_last() =~= cached_values(embeddings@.take(i as int), times@.take(i as int)));
                assert(ks.last() == key@);
                assert(vs.last() == (embeddings@[i as int], times@[i as int]));
                lemma_put_wf(self.entries(), key@, (embeddings@[i as int], times@[i as int]), cap);
            }
            lru_put(&mut self.cache, key, (embeddings[i], times[i]));
            i = i + 1;
        }
        proof {
            assert(texts@.take(i as int) =~= texts@);
            assert(embeddings@.take(i as int) =~= embeddings@);
            assert(times@.take(i as int) =~= times@);
        }
        let ghost full = self.entries();
        while lru_len(&self.cache) > self.max_cache_size
            invariant
                self.wf(),
                self.capacity() == cap,
                self.max_size() == old(self).max_size(),
                self.ttl() == old(self).ttl(),
                pruned_to(self.entries(), self.max_size()) == pruned_to(full, self.max_size()),
            decreases self.entries().len(),
        {
            proof {
                lemma_oldest_index(self.entries());
            }
            self.prune_once();
        }
    }

    /// Caches the embedding of each text in turn, now (see `update_at`).
    pub fn update(&mut self, texts: &Vec<String>, embeddings: &Vec<u64>)
        requires
            old(self).wf(),
        ensures
            final(self).wf(),
            texts@.len() != embeddings@.len() ==> final(self).entries() == old(self).entries(),
            texts@.len() == embeddings@.len() ==> exists|times: Seq<i64>| times.len() == texts@.len()
                && final(self).entries() == pruned_to(
                    put_all(old(self).entries(), cache_keys(texts@), cached_values(embeddings@, times), old(self).capacity()),
                    old(self).max_size(),
                ),
            final(self).max_size() == old(self).max_size(),
            final(self).ttl() == old(self).ttl(),
    {
        let mut times: Vec<i64> = Vec::new();
        let mut i: usize = 0;
        while i < texts.len()
            invariant
                i <= texts@.len(),
                times@.len() == i,
            decreases texts@.len() - i,
        {
            times.push(crate::clock::now().seconds());
            i = i + 1;
        }
        self.update_at(texts, embeddings, &times);
    }

    /// Drops the cached embedding of each text.
    pub fn invalidate(&mut self, texts: &Vec<String>)
        requires
            old(self).wf(),
        ensures
            final(self).wf(),
            final(self).entries() == without_keys(old(self).entries(), cache_keys(texts@)),
            final(self).max_size() == old(self).max_size(),
            final(self).ttl() == old(self).ttl(),
    {
        let ghost start = self.entries();
        let mut i: usize = 0;
        while i < texts.len()
            invariant
                i <= texts@.len(),
                self.wf(),
                self.max_size() == old(self).max_size(),
                self.ttl() == old(self).ttl(),
                self.entries() == without_keys(start, cache_keys(texts@.take(i as int))),
            decreases texts@.len() - i,
        {
            let key = embedding_cache_key(texts[i].as_str());
            proof {
                let ks = cache_keys(texts@.take(i + 1));
                assert(ks.drop_last() =~= cache_keys(texts@.take(i as int)));
                assert(ks.last() == key@);
                if let Some(j) = entry_index(self.entries(), key@) {
                    lemma_remove_distinct(self.entries(), j);
                }
            }
            let _ = lru_pop(&mut self.cache, key.as_str());
            i = i + 1;
        }
        assert(texts@.take(i as int) =~= texts@);
    }
}

/// An embedding just cached is found again while it is fresh, in a cache
/// whose configured size is at least one.
pub proof fn lemma_cache_read_after_store(
    es: Seq<(Seq<char>, CachedEmbedding)>,
    max: nat,
    key: Seq<char>,
    embedding: u64,
    cached_at: i64,
    now: i64,
    ttl: i64,
)
    requires
        distinct_entry_keys(es),
        es.len() <= max,
        max >= 1,
        now - cached_at < ttl,
    ensures
        fresh_embedding(pruned_once(put_entries(es, key, (embedding, cached_at), max), max), key, now, ttl) == Some(embedding),
{
    lemma_put_wf(es, key, (embedding, cached_at), max);
    let p = put_entries(es, key, (embedding, cached_at), max);
    assert(pruned_once(p, max) == p);
    lemma_index_of_distinct(p, 0);
}

proof fn lemma_without_key_absent(es: Seq<(Seq<char>, CachedEmbedding)>, key: Seq<char>, other: Seq<char>)
    requires
        distinct_entry_keys(es),
        key == other || entry_index(es, key) is None,
    ensures
        entry_index(without_key(es, other), key) is None,
        distinct_entry_keys(without_key(es, other)),
{
    match entry_index(es, other) {
        Some(i) => {
            lemma_remove_distinct(es, i);
            let r = es.remove(i);
            if exists|k: int| 0 <= k < r.len() && r[k].0 == key {
                let k = choose|k: int| 0 <= k < r.len() && r[k].0 == key;
                if k < i {
                    assert(r[k] == es[k]);
                } else {
                    assert(r[k] == es[k + 1]);
                }
                if key == other {
                    if k < i {
                        assert(es[k].0 != es[i].0);
                    } else {
                        assert(es[i].0 != es[k + 1].0);
                    }
                }
            }
        },
        None => {},
    }
}

proof fn lemma_without_keys_absent(es: Seq<(Seq<char>, CachedEmbedding)>, keys: Seq<Seq<char>>, j: int)
    requires
        distinct_entry_keys(es),
        0 <= j < keys.len(),
    ensures
        entry_index(without_keys(es, keys), keys[j]) is None,
        distinct_entry_keys(without_keys(es, keys)),
    decreases keys.len(),
{
    let rest = keys.drop_last();
    if j < keys.len() - 1 {
        lemma_without_keys_absent(es, rest, j);
        assert(rest[j] == keys[j]);
        lemma_without_key_absent(without_keys(es, rest), keys[j], keys.last());
    } else {
        lemma_without_keys_distinct(es, rest);
        lemma_without_key_absent(without_keys(es, rest), keys[j], keys.last());
    }
}

proof fn lemma_without_keys_distinct(es: Seq<(Seq<char>, CachedEmbedding)>, keys: Seq<Seq<char>>)
    requires
        distinct_entry_keys(es),
    ensures
        distinct_entry_keys(without_keys(es, keys)),
    decreases keys.len(),
{
    if keys.len() > 0 {
        lemma_without_keys_distinct(es, keys.drop_last());
        let r = without_keys(es, keys.drop_last());
        if let Some(i) = entry_index(r, keys.last()) {
            lemma_remove_distinct(r, i);
        }
    }
}

/// Once a text's embedding is invalidated, looking it up finds nothing.
pub proof fn lemma_invalidated_not_found(es: Seq<(Seq<char>, CachedEmbedding)>, texts: Seq<String>, j: int, now: i64, ttl: i64)
    requires
        distinct_entry_keys(es),
        0 <= j < texts.len(),
    ensures
        fresh_embedding(without_keys(es, cache_keys(texts)), "emb:"@ + texts[j]@, now, ttl) is None,
{
    lemma_without_keys_absent(es, cache_keys(texts), j);
}

/// The entries after a lookup of the key: the entry found becomes the
/// most recently used.
pub open spec fn after_lookup(es: Seq<(Seq<char>, CachedEmbedding)>, key: Seq<char>) -> Seq<(Seq<char>, CachedEmbedding)> {
    match entry_index(es, key) {
        Some(i) => touched(es, i),
        None => es,
    }
}

/// Looking up each key in turn, each at its own time: the entries after
/// all the lookups and what each lookup found.
pub open spec fn lookup_all(
    es: Seq<(Seq<char>, CachedEmbedding)>,
    keys: Seq<Seq<char>>,
    times: Seq<i64>,
    ttl: i64,
) -> (Seq<(Seq<char>, CachedEmbedding)>, Seq<Option<u64>>)
    decreases keys.len(),
{
    if keys.len() == 0 || times.len() == 0 {
        (es, Seq::empty())
    } else {
        let (before, found) = lookup_all(es, keys.drop_last(), times.drop_last(), ttl);
        (after_lookup(before, keys.last()), found.push(fresh_embedding(before, keys.last(), times.last(), ttl)))
    }
}

/// How many of the first `i` lookups found nothing.
pub open spec fn misses_before(found: Seq<Option<u64>>, i: int) -> nat
    decreases i,
{
    if i <= 0 {
        0
    } else {
        misses_before(found, i - 1) + if found[i - 1] is None { 1nat } else { 0nat }
    }
}

proof fn lemma_misses_step(found: Seq<Option<u64>>, i: int)
    requires
        0 <= i,
    ensures
        misses_before(found, i + 1) == misses_before(found, i) + if found[i] is None { 1nat } else { 0nat },
        misses_before(found, i) <= i,
    decreases i,
{
    if i > 0 {
        lemma_misses_step(found, i - 1);
    }
}

impl EmbeddingCache {
    /// Looks up the cached embedding of each text in turn, each at its own
    /// time (see `lookup_at`): what each lookup found, in the order of the
    /// texts.
    pub fn lookup_batch_at(&mut self, texts: &Vec<String>, times: &Vec<i64>) -> (r: Vec<Option<u64>>)
        requires
            old(self).wf(),
            times@.len() == texts@.len(),
        ensures
            final(self).wf(),
            (final(self).entries(), r@) == lookup_all(old(self).entries(), cache_keys(texts@), times@, old(self).ttl()),
            final(self).max_size() == old(self).max_size(),
            final(self).ttl() == old(self).ttl(),
    {
        let ghost start = self.entries();
        let mut r: Vec<Option<u64>> = Vec::new();
        let mut i: usize = 0;
        while i < texts.len()
            invariant
                i <= texts@.len(),
                times@.len() == texts@.len(),
                self.wf(),
                self.max_size() == old(self).max_size(),
                self.ttl() == old(self).ttl(),
                (self.entries(), r@) == lookup_all(start, cache_keys(texts@.take(i as int)), times@.take(i as int), self.ttl()),
            decreases texts@.len() - i,
        {
            proof {
                let ks = cache_keys(texts@.take(i + 1));
                assert(ks.drop_last() =~= cache_keys(texts@.take(i as int)));
                assert(ks.last() == "emb:"@ + texts@[i as int]@);
                assert(times@.take(i + 1).drop_last() =~= times@.take(i as int));
                assert(times@.take(i + 1).last() == times@[i as int]);
            }
            let found = self.lookup_at(texts[i].as_str(), times[i]);
            r.push(found);
            i = i + 1;
        }
        assert(texts@.take(i as int) =~= texts@);
        assert(times@.take(i as int) =~= times@);
        r
    }

    /// Looks up the cached embedding of each text in turn, now (see
    /// `lookup_batch_at`).
    pub fn lookup_batch(&mut self, texts: &Vec<String>) -> (r: Vec<Option<u64>>)
        requires
            old(self).wf(),
        ensures
            final(self).wf(),
            exists|times: Seq<i64>| times.len() == texts@.len()
                && (final(self).entries(), r@) == lookup_all(old(self).entries(), cache_keys(texts@), times, old(self).ttl()),
            final(self).max_size() == old(self).max_size(),
            final(self).ttl() == old(self).ttl(),
    {
        let mut times: Vec<i64> = Vec::new();
        let mut i: usize = 0;
        while i < texts.len()
            invariant
                i <= texts@.len(),
                times@.len() == i,
            decreases texts@.len() - i,
        {
            times.push(crate::clock::now().seconds());
            i = i + 1;
        }
        self.lookup_batch_at(texts, &times)
    }
}

/// The positions of the lookups that found nothing, in order: the texts
/// whose embeddings the model must make.
pub fn missing_positions(found: &Vec<Option<u64>>) -> (r: Vec<usize>)
    ensures
        r@.len() == misses_before(found@, found@.len() as int),
        forall|j: int| 0 <= j < r@.len() ==> (#[trigger] r@[j]) < found@.len() && found@[r@[j] as int] is None
            && misses_before(found@, r@[j] as int) == j,
{
    let mut r: Vec<usize> = Vec::new();
    let mut i: usize = 0;
    while i < found.len()
        invariant
            i <= found@.len(),
            r@.len() == misses_before(found@, i as int),
            forall|j: int| 0 <= j < r@.len() ==> (#[trigger] r@[j]) < i && found@[r@[j] as int] is None
                && misses_before(found@, r@[j] as int) == j,
        decreases found@.len() - i,
    {
        proof {
            lemma_misses_step(found@, i as int);
        }
        if found[i].is_none() {
            r.push(i);
        }
        i = i + 1;
    }
    r
}

/// The embeddings of a batch in the order of its texts: the one found in
/// the cache for a text, else the next of the new ones, which come in the
/// order of the texts that missed.
pub fn merge_batch(found: &Vec<Option<u64>>, new: &Vec<u64>) -> (r: Vec<u64>)
    requires
        new@.len() == misses_before(found@, found@.len() as int),
    ensures
        r@.len() == found@.len(),
        forall|i: int| 0 <= i < found@.len() ==> #[trigger] r@[i] == match found@[i] {
            Some(h) => h,
            None => new@[misses_before(found@, i) as int],
        },
{
    let mut r: Vec<u64> = Vec::new();
    let mut next: usize = 0;
    let mut i: usize = 0;
    while i < found.len()
        invariant
            i <= found@.len(),
            new@.len() == misses_before(found@, found@.len() as int),
            next == misses_before(found@, i as int),
            r@.len() == i,
            forall|k: int| 0 <= k < i ==> #[trigger] r@[k] == match found@[k] {
                Some(h) => h,
                None => new@[misses_before(found@, k) as int],
            },
        decreases found@.len() - i,
    {
        proof {
            lemma_misses_step(found@, i as int);
            lemma_misses_monotone(found@, i + 1, found@.len() as int);
        }
        match found[i] {
            Some(h) => {
                r.push(h);
            },
            None => {
                r.push(new[next]);
                next = next + 1;
            },
        }
        i = i + 1;
    }
    r
}

proof fn lemma_misses_monotone(found: Seq<Option<u64>>, i: int, j: int)
    requires
        0 <= i <= j,
    ensures
        misses_before(found, i) <= misses_before(found, j),
    decreases j - i,
{
    if i < j {
        lemma_misses_monotone(found, i, j - 1);
        lemma_misses_step(found, j - 1);
    }
}

proof fn lemma_put_all_front(
    es: Seq<(Seq<char>, CachedEmbedding)>,
    keys: Seq<Seq<char>>,
    values: Seq<CachedEmbedding>,
    cap: nat,
)
    requires
        distinct_entry_keys(es),
        es.len() <= cap,
        keys.len() == values.len(),
        keys.len() <= cap,
        cap > 0,
        forall|a: int, b: int| 0 <= a < b < keys.len() ==> keys[a] != keys[b],
    ensures
        distinct_entry_keys(put_all(es, keys, values, cap)),
        put_all(es, keys, values, cap).len() <= cap,
        put_all(es, keys, values, cap).len() >= keys.len(),
        forall|t: int| 0 <= t < keys.len() ==> #[trigger] put_all(es, keys, values, cap)[t]
            == (keys[keys.len() - 1 - t], values[keys.len() - 1 - t]),
    decreases keys.len(),
{
    if keys.len() > 0 {
        let m = keys.len() - 1;
        let ks = keys.drop_last();
        let vs = values.drop_last();
        lemma_put_all_front(es, ks, vs, cap);
        let before = put_all(es, ks, vs, cap);
        let key = keys.last();
        let v = values.last();
        lemma_put_wf(before, key, v, cap);
        let after = put_all(es, keys, values, cap);
        assert(after == put_entries(before, key, v, cap));
        assert forall|t: int| 0 <= t < keys.len() implies #[trigger] after[t] == (keys[keys.len() - 1 - t], values[keys.len() - 1 - t]) by {
            if t > 0 {
                assert(before[t - 1] == (ks[m - t], vs[m - t]));
                match entry_index(before, key) {
                    Some(i) => {
                        if i < m {
                            assert(before[i] == (ks[m - 1 - i], vs[m - 1 - i]));
                            assert(keys[m - 1 - i] != keys[m]);
                        }
                        assert(after[t] == before.remove(i)[t - 1]);
                    },
                    None => {
                        assert(after[t] == before[t - 1]);
                    },
                }
            }
        }
    }
}

proof fn lemma_touched_keeps(es: Seq<(Seq<char>, CachedEmbedding)>, i: int, e: (Seq<char>, CachedEmbedding))
    requires
        0 <= i < es.len(),
        es.contains(e),
    ensures
        touched(es, i).contains(e),
{
    let p = choose|p: int| 0 <= p < es.len() && es[p] == e;
    let r = touched(es, i);
    if p == i {
        assert(r[0] == e);
    } else if p < i {
        assert(r[p + 1] == e);
    } else {
        assert(r[p] == e);
    }
}

proof fn lemma_lookup_all_finds(
    es: Seq<(Seq<char>, CachedEmbedding)>,
    keys: Seq<Seq<char>>,
    stored: Seq<CachedEmbedding>,
    times: Seq<i64>,
    ttl: i64,
    n: int,
)
    requires
        distinct_entry_keys(es),
        0 <= n <= keys.len(),
        keys.len() == stored.len(),
        times.len() == keys.len(),
        forall|j: int| 0 <= j < keys.len() ==> #[trigger] es.contains((keys[j], stored[j])),
        forall|j: int, k: int| 0 <= j < keys.len() && 0 <= k < keys.len() ==> times[k] - stored[j].1 < ttl,
    ensures
        distinct_entry_keys(lookup_all(es, keys.take(n), times.take(n), ttl).0),
        forall|j: int| 0 <= j < keys.len() ==> #[trigger] lookup_all(es, keys.take(n), times.take(n), ttl).0.contains((keys[j], stored[j])),
        lookup_all(es, keys.take(n), times.take(n), ttl).1.len() == n,
        forall|j: int| 0 <= j < n ==> #[trigger] lookup_all(es, keys.take(n), times.take(n), ttl).1[j] == Some(stored[j].0),
    decreases n,
{
    if n > 0 {
        lemma_lookup_all_finds(es, keys, stored, times, ttl, n - 1);
        assert(keys.take(n).drop_last() =~= keys.take(n - 1));
        assert(times.take(n).drop_last() =~= times.take(n - 1));
        let before = lookup_all(es, keys.take(n - 1), times.take(n - 1), ttl).0;
        let key = keys[n - 1];
        assert(keys.take(n).last() == key);
        assert(times.take(n).last() == times[n - 1]);
        assert(before.contains((keys[n - 1], stored[n - 1])));
        let p = choose|p: int| 0 <= p < before.len() && before[p] == (keys[n - 1], stored[n - 1]);
        lemma_index_of_distinct(before, p);
        assert(entry_index(before, key) == Some(p));
        lemma_touched_distinct(before, p);
        assert forall|j: int| 0 <= j < keys.len() implies #[trigger] after_lookup(before, key).contains((keys[j], stored[j])) by {
            assert(before.contains((keys[j], stored[j])));
            lemma_touched_keeps(before, p, (keys[j], stored[j]));
        }
    }
}

/// A batch whose embeddings were just cached is served from the cache,
/// each text with its own embedding, in a cache large enough for the
/// batch, when the texts differ and every embedding is still fresh.
pub proof fn lemma_batch_served_from_cache(
    es: Seq<(Seq<char>, CachedEmbedding)>,
    max: nat,
    texts: Seq<String>,
    embeddings: Seq<u64>,
    times: Seq<i64>,
    later: Seq<i64>,
    ttl: i64,
)
    requires
        distinct_entry_keys(es),
        es.len() <= max,
        texts.len() <= max,
        max >= 1,
        embeddings.len() == texts.len(),
        times.len() == texts.len(),
        later.len() == texts.len(),
        forall|a: int, b: int| 0 <= a < b < texts.len() ==> texts[a]@ != texts[b]@,
        forall|j: int, k: int| 0 <= j < texts.len() && 0 <= k < texts.len() ==> later[k] - times[j] < ttl,
    ensures
        ({
            let cached = pruned_to(put_all(es, cache_keys(texts), cached_values(embeddings, times), max), max);
            let found = lookup_all(cached, cache_keys(texts), later, ttl).1;
            found.len() == texts.len() && forall|j: int| 0 <= j < texts.len() ==> #[trigger] found[j] == Some(embeddings[j])
        }),
{
    let keys = cache_keys(texts);
    let values = cached_values(embeddings, times);
    reveal_strlit("emb:");
    assert("emb:"@.len() == 4);
    assert forall|a: int, b: int| 0 <= a < b < keys.len() implies keys[a] != keys[b] by {
        if keys[a] == keys[b] {
            assert(keys[a].skip(4) =~= texts[a]@);
            assert(keys[b].skip(4) =~= texts[b]@);
        }
    }
    lemma_put_all_front(es, keys, values, max);
    let put = put_all(es, keys, values, max);
    assert(pruned_to(put, max) == put);
    let n = texts.len() as int;
    assert forall|j: int| 0 <= j < n implies #[trigger] put.contains((keys[j], values[j])) by {
        assert(put[n - 1 - j] == (keys[j], values[j]));
    }
    lemma_lookup_all_finds(put, keys, values, later, ttl, n);
    assert(keys.take(n) =~= keys);
    assert(later.take(n) =~= later);
}

/// The intents whose embeddings are made first, each with the question
/// that stands for it.
pub open spec fn intent_examples() -> Seq<(FinancialQueryIntent, Seq<char>)> {
    seq![
        (FinancialQueryIntent::PortfolioPerformance, "How is my portfolio performing"@),
        (FinancialQueryIntent::AssetAllocation, "What is my current asset allocation"@),
        (FinancialQueryIntent::RetirementPlanning, "When can I retire"@),
        (FinancialQueryIntent::TaxOptimization, "How can I reduce my taxes"@),
        (FinancialQueryIntent::GoalProgress, "Am I on track for my financial goals"@),
    ]
}

/// The intents whose embeddings are made first, each with the question
/// that stands for it (see `intent_examples`).
pub fn intent_example_questions() -> (r: Vec<(FinancialQueryIntent, &'static str)>)
    ensures
        r@.map_values(|e: (FinancialQueryIntent, &'static str)| (e.0, e.1@)) == intent_examples(),
{
    let r = vec![
        (FinancialQueryIntent::PortfolioPerformance, "How is my portfolio performing"),
        (FinancialQueryIntent::AssetAllocation, "What is my current asset allocation"),
        (FinancialQueryIntent::RetirementPlanning, "When can I retire"),
        (FinancialQueryIntent::TaxOptimization, "How can I reduce my taxes"),
        (FinancialQueryIntent::GoalProgress, "Am I on track for my financial goals"),
    ];
    assert(r@.map_values(|e: (FinancialQueryIntent, &'static str)| (e.0, e.1@)) =~= intent_examples());
    r
}

} // verus!
