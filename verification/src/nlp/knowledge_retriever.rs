//! Retrieval of financial knowledge items by intent, tag, source type and
//! keywords.

use vstd::prelude::*;
use crate::text::{to_lowercase, lowercase, is_substring, str_contains, split_whitespace, words};
use crate::ranking::{is_top_positive, top_positive};
use super::rule_based::FinancialQueryIntent;

verus! {

/// Knowledge source type.
#[derive(Debug, Clone, Copy, PartialEq, Eq, Hash, Structural)]
pub enum KnowledgeSourceType {
    /// Financial concepts
    FinancialConcept,
    /// Market data
    MarketData,
    /// Regulatory information
    RegulatoryInfo,
    /// Tax rules
    TaxRules,
    /// Investment strategies
    InvestmentStrategy,
    /// Financial planning
    FinancialPlanning,
    /// Retirement planning
    RetirementPlanning,
    /// Estate planning
    EstatePlanning,
    /// Insurance planning
    InsurancePlanning,
    /// Education planning
    EducationPlanning,
}

/// A knowledge item.
#[derive(Debug, Clone)]
pub struct KnowledgeItem {
    /// Unique ID
    pub id: String,
    /// Title
    pub title: String,
    /// Content
    pub content: String,
    /// Source type
    pub source_type: KnowledgeSourceType,
    /// Tags
    pub tags: Vec<String>,
    /// Related intents
    pub related_intents: Vec<FinancialQueryIntent>,
}

/// Knowledge retriever configuration.
#[derive(Debug, Clone)]
pub struct KnowledgeRetrieverConfig {
    /// Maximum number of items to retrieve
    pub max_items: usize,
    /// Whether to use embeddings for retrieval, where an embedding service
    /// is attached
    pub use_embeddings: bool,
}

impl Default for KnowledgeRetrieverConfig {
    fn default() -> (c: Self)
        ensures
            c.max_items == 5,
            c.use_embeddings,
    {
        KnowledgeRetrieverConfig { max_items: 5, use_embeddings: true }
    }
}

/// Errors of knowledge retrieval.
#[derive(Debug, Clone, Copy, PartialEq, Eq, Structural)]
pub enum KnowledgeError {
    /// No embedding service is attached.
    EmbeddingServiceUnavailable,
}

/// How often an intent occurs in a list.
pub open spec fn intent_count(intents: Seq<FinancialQueryIntent>, intent: FinancialQueryIntent) -> nat
    decreases intents.len(),
{
    if intents.len() == 0 {
        0
    } else {
        intent_count(intents.drop_last(), intent) + if intents.last() == intent { 1nat } else { 0nat }
    }
}

/// The items related to an intent, in the order they were added; an item
/// that lists the intent several times appears as often.
pub open spec fn intent_items(items: Seq<KnowledgeItem>, intent: FinancialQueryIntent) -> Seq<KnowledgeItem>
    decreases items.len(),
{
    if items.len() == 0 {
        Seq::empty()
    } else {
        intent_items(items.drop_last(), intent) + Seq::new(
            intent_count(items.last().related_intents@, intent),
            |i: int| items.last(),
        )
    }
}

/// The item carries one of the tags.
pub open spec fn has_any_tag(item: KnowledgeItem, tags: Seq<String>) -> bool {
    exists|t: int, u: int| 0 <= t < tags.len() && 0 <= u < item.tags@.len() && #[trigger] tags[t]@ == #[trigger] item.tags@[u]@
}

/// Number of the words that occur in the text.
pub open spec fn words_in(ws: Seq<Seq<char>>, text: Seq<char>) -> nat
    decreases ws.len(),
{
    if ws.len() == 0 {
        0
    } else {
        words_in(ws.drop_last(), text) + if is_substring(ws.last(), text) { 1nat } else { 0nat }
    }
}

/// The word occurs in one of the tags, lower-cased.
pub open spec fn in_some_tag(w: Seq<char>, tags: Seq<String>) -> bool {
    exists|t: int| 0 <= t < tags.len() && is_substring(w, lowercase(#[trigger] tags[t]@))
}

/// Number of the words that occur in some tag.
pub open spec fn words_in_tags(ws: Seq<Seq<char>>, tags: Seq<String>) -> nat
    decreases ws.len(),
{
    if ws.len() == 0 {
        0
    } else {
        words_in_tags(ws.drop_last(), tags) + if in_some_tag(ws.last(), tags) { 1nat } else { 0nat }
    }
}

/// Keyword relevance of an item: three points per word found in its title,
/// one per word found in its content and two per word found in a tag (all
/// lower-cased).
pub open spec fn keyword_score(item: KnowledgeItem, ws: Seq<Seq<char>>) -> nat {
    3 * words_in(ws, lowercase(item.title@)) + words_in(ws, lowercase(item.content@)) + 2 * words_in_tags(ws, item.tags@)
}

/// The keyword scores of all items for the words.
pub open spec fn keyword_scores(items: Seq<KnowledgeItem>, ws: Seq<Seq<char>>) -> Seq<u128> {
    Seq::new(items.len(), |i: int| keyword_score(items[i], ws) as u128)
}

/// The references point at the items listed.
pub open spec fn refers_to(r: Seq<&KnowledgeItem>, items: Seq<KnowledgeItem>) -> bool {
    r.len() == items.len() && forall|i: int| 0 <= i < r.len() ==> *r[i] == items[i]
}

/// The items the references point at.
pub open spec fn deref_items(r: Seq<&KnowledgeItem>) -> Seq<KnowledgeItem> {
    r.map_values(|x: &KnowledgeItem| *x)
}

/// `found` lists the best items for the query by keyword relevance (see
/// `keyword_score`): at most `max` of them, best first, ties in the order
/// the items were added, none that matches no word of the lower-cased
/// query.
pub open spec fn keyword_matches(items: Seq<KnowledgeItem>, max: usize, query: Seq<char>, found: Seq<KnowledgeItem>) -> bool {
    exists|top: Seq<usize>|
        #![trigger is_top_positive(keyword_scores(items, words(lowercase(query))), top, max as nat)]
        is_top_positive(keyword_scores(items, words(lowercase(query))), top, max as nat)
            && found == top.map_values(|i: usize| items[i as int])
}

fn count_words_in(ws: &Vec<String>, text: &str) -> (n: u64)
    ensures
        n == words_in(ws@.map_values(|w: String| w@), text@),
{
    let ghost wv = ws@.map_values(|w: String| w@);
    let mut n: u64 = 0;
    let mut i: usize = 0;
    while i < ws.len()
        invariant
            i <= ws@.len(),
            wv == ws@.map_values(|w: String| w@),
            n == words_in(wv.subrange(0, i as int), text@),
            n <= i,
        decreases ws@.len() - i,
    {
        assert(wv.subrange(0, i + 1).drop_last() =~= wv.subrange(0, i as int));
        if str_contains(text, ws[i].as_str()) {
            n = n + 1;
        }
        i = i + 1;
    }
    assert(wv.subrange(0, wv.len() as int) =~= wv);
    n
}

fn word_in_tags(w: &str, tags: &Vec<String>) -> (b: bool)
    ensures
        b == in_some_tag(w@, tags@),
{
    let mut t: usize = 0;
    while t < tags.len()
        invariant
            t <= tags@.len(),
            forall|k: int| 0 <= k < t ==> !is_substring(w@, lowercase(tags@[k]@)),
        decreases tags@.len() - t,
    {
        let lowered = to_lowercase(tags[t].as_str());
        if str_contains(lowered.as_str(), w) {
            return true;
        }
        t = t + 1;
    }
    false
}

fn count_words_in_tags(ws: &Vec<String>, tags: &Vec<String>) -> (n: u64)
    ensures
        n == words_in_tags(ws@.map_values(|w: String| w@), tags@),
{
    let ghost wv = ws@.map_values(|w: String| w@);
    let mut n: u64 = 0;
    let mut i: usize = 0;
    while i < ws.len()
        invariant
            i <= ws@.len(),
            wv == ws@.map_values(|w: String| w@),
            n == words_in_tags(wv.subrange(0, i as int), tags@),
            n <= i,
        decreases ws@.len() - i,
    {
        assert(wv.subrange(0, i + 1).drop_last() =~= wv.subrange(0, i as int));
        if word_in_tags(ws[i].as_str(), tags) {
            n = n + 1;
        }
        i = i + 1;
    }
    assert(wv.subrange(0, wv.len() as int) =~= wv);
    n
}

/// Retrieves knowledge items for queries.
#[derive(Debug)]
pub struct KnowledgeRetriever {
    items: Vec<KnowledgeItem>,
    config: KnowledgeRetrieverConfig,
}

impl KnowledgeRetriever {
    /// The items held, in the order they were added.
    pub closed spec fn items_view(&self) -> Seq<KnowledgeItem> {
        self.items@
    }

    /// The configuration.
    pub closed spec fn config_view(&self) -> KnowledgeRetrieverConfig {
        self.config
    }

    /// A retriever with no items.
    pub fn new(config: KnowledgeRetrieverConfig) -> (r: Self)
        ensures
            r.items_view() == Seq::<KnowledgeItem>::empty(),
            r.config_view() == config,
    {
        KnowledgeRetriever { items: Vec::new(), config }
    }

    /// Adds an item; it is found by each intent it lists.
    pub fn add_item(&mut self, item: KnowledgeItem) -> (r: Result<(), KnowledgeError>)
        ensures
            r is Ok,
            final(self).items_view() == old(self).items_view().push(item),
            final(self).config_view() == old(self).config_view(),
    {
        self.items.push(item);
        Ok(())
    }

    /// The items related to the intent, in the order they were added.
    pub fn retrieve_by_intent(&self, intent: &FinancialQueryIntent) -> (r: Vec<&KnowledgeItem>)
        ensures
            refers_to(r@, intent_items(self.items_view(), *intent)),
    {
        let ghost items = self.items@;
        let mut r: Vec<&KnowledgeItem> = Vec::new();
        let mut k: usize = 0;
        while k < self.items.len()
            invariant
                k <= items.len(),
                items == self.items@,
                refers_to(r@, intent_items(items.subrange(0, k as int), *intent)),
            decreases items.len() - k,
        {
            let item = &self.items[k];
            let ghost before = intent_items(items.subrange(0, k as int), *intent);
            assert(items.subrange(0, k + 1).drop_last() =~= items.subrange(0, k as int));
            let mut j: usize = 0;
            while j < item.related_intents.len()
                invariant
                    j <= item.related_intents@.len(),
                    r@.len() == before.len() + intent_count(item.related_intents@.subrange(0, j as int), *intent),
                    forall|i: int| 0 <= i < before.len() ==> *r@[i] == before[i],
                    forall|i: int| before.len() <= i < r@.len() ==> *r@[i] == *item,
                decreases item.related_intents@.len() - j,
            {
                assert(item.related_intents@.subrange(0, j + 1).drop_last() =~= item.related_intents@.subrange(0, j as int));
                if item.related_intents[j] == *intent {
                    r.push(item);
                }
                j = j + 1;
            }
            assert(item.related_intents@.subrange(0, item.related_intents@.len() as int) =~= item.related_intents@);
            k = k + 1;
            assert(refers_to(r@, intent_items(items.subrange(0, k as int), *intent)));
        }
        assert(items.subrange(0, items.len() as int) =~= items);
        r
    }

    /// The best items for the query by keyword relevance (see
    /// `keyword_score`), at most `max_items`, best first, ties in the order
    /// the items were added; items that match no word are left out. The
    /// query is lower-cased and split at white space.
    pub fn retrieve_by_query(&self, query: &str) -> (r: Vec<&KnowledgeItem>)
        ensures
            keyword_matches(self.items_view(), self.config_view().max_items, query@, deref_items(r@)),
    {
        let normalized = to_lowercase(query);
        let ws = split_whitespace(normalized.as_str());
        let ghost wv = ws@.map_values(|w: String| w@);
        let ghost items = self.items@;
        let mut scores: Vec<u128> = Vec::new();
        let mut k: usize = 0;
        while k < self.items.len()
            invariant
                k <= items.len(),
                items == self.items@,
                wv == ws@.map_values(|w: String| w@),
                wv == words(lowercase(query@)),
                scores@.len() == k,
                forall|i: int| 0 <= i < k ==> scores@[i] == keyword_score(items[i], wv),
            decreases items.len() - k,
        {
            let item = &self.items[k];
            let title = to_lowercase(item.title.as_str());
            let content = to_lowercase(item.content.as_str());
            let title_score = count_words_in(&ws, title.as_str());
            let content_score = count_words_in(&ws, content.as_str());
            let tag_score = count_words_in_tags(&ws, &item.tags);
            let score: u128 = 3 * (title_score as u128) + (content_score as u128) + 2 * (tag_score as u128);
            scores.push(score);
            k = k + 1;
        }
        assert(scores@ =~= keyword_scores(items, wv));
        let top = top_positive(&scores, self.config.max_items);
        let mut r: Vec<&KnowledgeItem> = Vec::new();
        let mut i: usize = 0;
        while i < top.len()
            invariant
                i <= top@.len(),
                items == self.items@,
                is_top_positive(scores@, top@, self.config.max_items as nat),
                scores@ == keyword_scores(items, words(lowercase(query@))),
                r@.len() == i,
                forall|a: int| 0 <= a < i ==> *r@[a] == items[top@[a] as int],
            decreases top@.len() - i,
        {
            r.push(&self.items[top[i]]);
            i = i + 1;
        }
        assert(is_top_positive(keyword_scores(items, words(lowercase(query@))), top@, self.config.max_items as nat));
        assert(forall|a: int| 0 <= a < top@.len() ==> *r@[a] == items[top@[a] as int]);
        assert(deref_items(r@) =~= top@.map_values(|i: usize| items[i as int]));
        r
    }

    /// The items carrying one of the tags, in the order they were added.
    pub fn retrieve_by_tags(&self, tags: &[String]) -> (r: Vec<&KnowledgeItem>)
        ensures
            refers_to(r@, self.items_view().filter(|item: KnowledgeItem| has_any_tag(item, tags@))),
    {
        let ghost items = self.items@;
        let ghost pred = |item: KnowledgeItem| has_any_tag(item, tags@);
        let mut r: Vec<&KnowledgeItem> = Vec::new();
        let mut k: usize = 0;
        while k < self.items.len()
            invariant
                k <= items.len(),
                items == self.items@,
                pred == (|item: KnowledgeItem| has_any_tag(item, tags@)),
                refers_to(r@, items.subrange(0, k as int).filter(pred)),
            decreases items.len() - k,
        {
            let item = &self.items[k];
            assert(items.subrange(0, k + 1).drop_last() =~= items.subrange(0, k as int));
            let mut found = false;
            let mut t: usize = 0;
            while t < tags.len() && !found
                invariant
                    t <= tags@.len(),
                    found ==> has_any_tag(*item, tags@),
                    !found ==> forall|a: int, u: int| 0 <= a < t && 0 <= u < item.tags@.len() ==> tags@[a]@ != item.tags@[u]@,
                decreases tags@.len() - t,
            {
                let mut u: usize = 0;
                while u < item.tags.len() && !found
                    invariant
                        t < tags@.len(),
                        u <= item.tags@.len(),
                        found ==> has_any_tag(*item, tags@),
                        !found ==> forall|a: int, v: int| 0 <= a < t && 0 <= v < item.tags@.len() ==> tags@[a]@ != item.tags@[v]@,
                        !found ==> forall|v: int| 0 <= v < u ==> tags@[t as int]@ != item.tags@[v]@,
                    decreases item.tags@.len() - u,
                {
                    if tags[t] == item.tags[u] {
                        found = true;
                    }
                    u = u + 1;
                }
                t = t + 1;
            }
            let ghost sub = items.subrange(0, k as int).filter(pred);
            assert(items.subrange(0, k + 1) =~= items.subrange(0, k as int).push(*item));
            proof {
                items.subrange(0, k as int).lemma_filter_push(*item, pred);
            }
            assert(pred(*item) == has_any_tag(*item, tags@));
            if found {
                r.push(item);
                assert(items.subrange(0, k + 1).filter(pred) == sub.push(*item));
            } else {
                assert(items.subrange(0, k + 1).filter(pred) == sub);
            }
            k = k + 1;
        }
        assert(items.subrange(0, items.len() as int) =~= items);
        r
    }

    /// The items of the source type, in the order they were added.
    pub fn retrieve_by_source_type(&self, source_type: &KnowledgeSourceType) -> (r: Vec<&KnowledgeItem>)
        ensures
            refers_to(r@, self.items_view().filter(|item: KnowledgeItem| item.source_type == *source_type)),
    {
        let ghost items = self.items@;
        let ghost pred = |item: KnowledgeItem| item.source_type == *source_type;
        let mut r: Vec<&KnowledgeItem> = Vec::new();
        let mut k: usize = 0;
        while k < self.items.len()
            invariant
                k <= items.len(),
                items == self.items@,
                pred == (|item: KnowledgeItem| item.source_type == *source_type),
                refers_to(r@, items.subrange(0, k as int).filter(pred)),
            decreases items.len() - k,
        {
            let item = &self.items[k];
            assert(items.subrange(0, k + 1).drop_last() =~= items.subrange(0, k as int));
            let ghost sub = items.subrange(0, k as int).filter(pred);
            assert(items.subrange(0, k + 1) =~= items.subrange(0, k as int).push(*item));
            proof {
                items.subrange(0, k as int).lemma_filter_push(*item, pred);
            }
            if item.source_type == *source_type {
                r.push(item);
                assert(items.subrange(0, k + 1).filter(pred) == sub.push(*item));
            } else {
                assert(items.subrange(0, k + 1).filter(pred) == sub);
            }
            k = k + 1;
        }
        assert(items.subrange(0, items.len() as int) =~= items);
        r
    }

    /// All items, in the order they were added.
    pub fn get_all_items(&self) -> (r: &[KnowledgeItem])
        ensures
            r@ == self.items_view(),
    {
        self.items.as_slice()
    }

    /// The first item with the identifier, if any.
    pub fn get_item_by_id(&self, id: &str) -> (r: Option<&KnowledgeItem>)
        ensures
            r is None <==> forall|i: int| 0 <= i < self.items_view().len() ==> self.items_view()[i].id@ != id@,
            r is Some ==> exists|i: int| {
                &&& 0 <= i < self.items_view().len()
                &&& *r->0 == self.items_view()[i]
                &&& self.items_view()[i].id@ == id@
                &&& forall|k: int| 0 <= k < i ==> self.items_view()[k].id@ != id@
            },
    {
        let wanted = String::from_str(id);
        let mut i: usize = 0;
        while i < self.items.len()
            invariant
                i <= self.items@.len(),
                wanted@ == id@,
                forall|k: int| 0 <= k < i ==> self.items@[k].id@ != id@,
            decreases self.items@.len() - i,
        {
            if self.items[i].id == wanted {
                return Some(&self.items[i]);
            }
            i = i + 1;
        }
        None
    }
}

/// Some item of the list has the identifier.
pub open spec fn has_item_id(items: Seq<KnowledgeItem>, id: Seq<char>) -> bool {
    exists|i: int| 0 <= i < items.len() && #[trigger] items[i].id@ == id
}

/// `acc` extended by the items of `extra` whose identifier it does not hold
/// yet, in order, until it holds `max` items.
pub open spec fn fill_up_to(acc: Seq<KnowledgeItem>, extra: Seq<KnowledgeItem>, max: nat) -> Seq<KnowledgeItem>
    decreases extra.len(),
{
    if extra.len() == 0 || acc.len() >= max {
        acc
    } else if has_item_id(acc, extra[0].id@) {
        fill_up_to(acc, extra.drop_first(), max)
    } else {
        fill_up_to(acc.push(extra[0]), extra.drop_first(), max)
    }
}

/// At most the first `max` items.
pub open spec fn first_items(items: Seq<KnowledgeItem>, max: nat) -> Seq<KnowledgeItem> {
    if items.len() > max { items.subrange(0, max as int) } else { items }
}

/// The items found for a query, completed from the intent's items when
/// fewer than `max`, at most `max` of them.
pub open spec fn combined_items(found: Seq<KnowledgeItem>, by_intent: Seq<KnowledgeItem>, max: nat) -> Seq<KnowledgeItem> {
    first_items(if found.len() < max { fill_up_to(found, by_intent, max) } else { found }, max)
}

fn holds_item_id(items: &Vec<&KnowledgeItem>, id: &String) -> (b: bool)
    ensures
        b == has_item_id(deref_items(items@), id@),
{
    let mut i: usize = 0;
    while i < items.len()
        invariant
            i <= items@.len(),
            forall|k: int| 0 <= k < i ==> items@[k].id@ != id@,
        decreases items@.len() - i,
    {
        if items[i].id == *id {
            assert(deref_items(items@)[i as int].id@ == id@);
            return true;
        }
        i = i + 1;
    }
    assert forall|k: int| 0 <= k < deref_items(items@).len() implies #[trigger] deref_items(items@)[k].id@ != id@ by {
        assert(deref_items(items@)[k] == *items@[k]);
    }
    false
}

/// Combines the items found for a query with the intent's items (see
/// `combined_items`).
pub fn combine_items<'a>(found: Vec<&'a KnowledgeItem>, by_intent: Vec<&'a KnowledgeItem>, max: usize) -> (r: Vec<&'a KnowledgeItem>)
    ensures
        deref_items(r@) == combined_items(deref_items(found@), deref_items(by_intent@), max as nat),
{
    let ghost extra = deref_items(by_intent@);
    let ghost target = if found@.len() < max { fill_up_to(deref_items(found@), extra, max as nat) } else { deref_items(found@) };
    let mut all = found;
    if all.len() < max {
        let mut j: usize = 0;
        assert(extra.subrange(0, extra.len() as int) =~= extra);
        while j < by_intent.len() && all.len() < max
            invariant
                j <= by_intent@.len(),
                extra == deref_items(by_intent@),
                fill_up_to(deref_items(all@), extra.subrange(j as int, extra.len() as int), max as nat) == target,
            decreases by_intent@.len() - j,
        {
            let item = by_intent[j];
            let ghost rest = extra.subrange(j as int, extra.len() as int);
            let ghost before = deref_items(all@);
            assert(rest[0] == *item);
            assert(rest.drop_first() =~= extra.subrange(j + 1, extra.len() as int));
            if !holds_item_id(&all, &item.id) {
                all.push(item);
                assert(deref_items(all@) =~= before.push(*item));
            }
            j = j + 1;
        }
        assert(extra.subrange(j as int, extra.len() as int).len() == 0 ==> extra.subrange(j as int, extra.len() as int) =~= Seq::<KnowledgeItem>::empty());
    }
    assert(deref_items(all@) == target);
    if all.len() > max {
        all.truncate(max);
        assert(deref_items(all@) =~= first_items(target, max as nat));
    } else {
        assert(deref_items(all@) =~= first_items(target, max as nat));
    }
    all
}

proof fn lemma_words_in_bounded(ws: Seq<Seq<char>>, text: Seq<char>)
    ensures
        words_in(ws, text) <= ws.len(),
    decreases ws.len(),
{
    if ws.len() > 0 {
        lemma_words_in_bounded(ws.drop_last(), text);
    }
}

proof fn lemma_words_in_tags_bounded(ws: Seq<Seq<char>>, tags: Seq<String>)
    ensures
        words_in_tags(ws, tags) <= ws.len(),
    decreases ws.len(),
{
    if ws.len() > 0 {
        lemma_words_in_tags_bounded(ws.drop_last(), tags);
    }
}

proof fn lemma_word_found_in(ws: Seq<Seq<char>>, text: Seq<char>, j: int)
    requires
        0 <= j < ws.len(),
        is_substring(ws[j], text),
    ensures
        words_in(ws, text) >= 1,
    decreases ws.len(),
{
    if j < ws.len() - 1 {
        lemma_word_found_in(ws.drop_last(), text, j);
        assert(ws.drop_last()[j] == ws[j]);
    }
}

proof fn lemma_word_found_in_tags(ws: Seq<Seq<char>>, tags: Seq<String>, j: int, t: int)
    requires
        0 <= j < ws.len(),
        0 <= t < tags.len(),
        is_substring(ws[j], lowercase(tags[t]@)),
    ensures
        words_in_tags(ws, tags) >= 1,
    decreases ws.len(),
{
    if j < ws.len() - 1 {
        lemma_word_found_in_tags(ws.drop_last(), tags, j, t);
        assert(ws.drop_last()[j] == ws[j]);
    } else {
        assert(in_some_tag(ws[j], tags));
    }
}

/// An item whose title, content or one of whose tags (each lower-cased)
/// contains a word of the lower-cased query is relevant to it: when the
/// query retrieves fewer items than the limit, that item is among them.
/// A title word counts three points, a tag word two and a content word one,
/// so a matching tag alone gives two points.
pub proof fn lemma_matching_item_retrieved(
    items: Seq<KnowledgeItem>,
    max: usize,
    query: Seq<char>,
    found: Seq<KnowledgeItem>,
    i: int,
    j: int,
)
    requires
        keyword_matches(items, max, query, found),
        found.len() < max,
        0 <= i < items.len(),
        items.len() <= usize::MAX,
        0 <= j < words(lowercase(query)).len(),
        words(lowercase(query)).len() <= 0xFFFF_FFFF_FFFF_FFFF,
        is_substring(words(lowercase(query))[j], lowercase(items[i].title@))
            || is_substring(words(lowercase(query))[j], lowercase(items[i].content@))
            || exists|t: int| 0 <= t < items[i].tags@.len()
                && is_substring(words(lowercase(query))[j], lowercase(#[trigger] items[i].tags@[t]@)),
    ensures
        found.contains(items[i]),
        keyword_score(items[i], words(lowercase(query)))
            >= if is_substring(words(lowercase(query))[j], lowercase(items[i].title@)) { 3nat }
               else if exists|t: int| 0 <= t < items[i].tags@.len()
                   && is_substring(words(lowercase(query))[j], lowercase(#[trigger] items[i].tags@[t]@)) { 2nat }
               else { 1nat },
{
    let ws = words(lowercase(query));
    let item = items[i];
    if is_substring(ws[j], lowercase(item.title@)) {
        lemma_word_found_in(ws, lowercase(item.title@), j);
    }
    if is_substring(ws[j], lowercase(item.content@)) {
        lemma_word_found_in(ws, lowercase(item.content@), j);
    }
    if exists|t: int| 0 <= t < item.tags@.len() && is_substring(ws[j], lowercase(#[trigger] item.tags@[t]@)) {
        let t = choose|t: int| 0 <= t < item.tags@.len() && is_substring(ws[j], lowercase(#[trigger] item.tags@[t]@));
        lemma_word_found_in_tags(ws, item.tags@, j, t);
    }
    lemma_words_in_bounded(ws, lowercase(item.title@));
    lemma_words_in_bounded(ws, lowercase(item.content@));
    lemma_words_in_tags_bounded(ws, item.tags@);
    let score = keyword_score(item, ws);
    assert(0 < score <= 6 * ws.len());
    let scores = keyword_scores(items, ws);
    assert(scores[i] == score as u128);
    assert(scores[i] > 0);
    let top = choose|top: Seq<usize>|
        #![trigger is_top_positive(keyword_scores(items, words(lowercase(query))), top, max as nat)]
        is_top_positive(keyword_scores(items, words(lowercase(query))), top, max as nat)
            && found == top.map_values(|x: usize| items[x as int]);
    assert(top.len() == found.len());
    assert(top.contains(i as usize));
    let a = choose|a: int| 0 <= a < top.len() && top[a] == i as usize;
    assert(found[a] == items[i]);
}

/// Retrieval by tags: `found` holds exactly the items (in their order)
/// that carry one of the requested tags, wherever it stands in the
/// request.
pub proof fn lemma_retrieved_by_tags(items: Seq<KnowledgeItem>, tags: Seq<String>, r: Seq<&KnowledgeItem>)
    requires
        refers_to(r, items.filter(|item: KnowledgeItem| has_any_tag(item, tags))),
    ensures
        forall|i: int| 0 <= i < items.len() && (exists|t: int, u: int| 0 <= t < tags.len() && 0 <= u < items[i].tags@.len()
            && #[trigger] tags[t]@ == #[trigger] items[i].tags@[u]@)
            ==> deref_items(r).contains(#[trigger] items[i]),
        forall|k: int| #![trigger r[k]] 0 <= k < r.len() ==> (exists|t: int, u: int| 0 <= t < tags.len() && 0 <= u < (*r[k]).tags@.len()
            && #[trigger] tags[t]@ == #[trigger] (*r[k]).tags@[u]@),
{
    let pred = |item: KnowledgeItem| has_any_tag(item, tags);
    let f = items.filter(pred);
    items.filter_lemma(pred);
    assert(deref_items(r) =~= f);
    assert forall|i: int| 0 <= i < items.len() && (exists|t: int, u: int| 0 <= t < tags.len() && 0 <= u < items[i].tags@.len()
        && #[trigger] tags[t]@ == #[trigger] items[i].tags@[u]@) implies deref_items(r).contains(#[trigger] items[i]) by {
        let (t, u) = choose|t: int, u: int| 0 <= t < tags.len() && 0 <= u < items[i].tags@.len()
            && #[trigger] tags[t]@ == #[trigger] items[i].tags@[u]@;
        assert(has_any_tag(items[i], tags));
        assert(pred(items[i]));
        assert(f.contains(items[i]));
    }
    assert forall|k: int| #![trigger r[k]] 0 <= k < r.len() implies (exists|t: int, u: int| 0 <= t < tags.len() && 0 <= u < (*r[k]).tags@.len()
        && #[trigger] tags[t]@ == #[trigger] (*r[k]).tags@[u]@) by {
        assert(*r[k] == f[k]);
        assert(pred(f[k]));
    }
}

} // verus!
