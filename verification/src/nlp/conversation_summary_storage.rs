//! Conversation summaries kept in memory, found by identifier or by
//! conversation.

use vstd::prelude::*;
use crate::ranking::{is_ranking, rank_desc};
use super::conversation_summary::ConversationSummary;

verus! {

/// Position of the summary with the identifier, if any.
pub open spec fn summary_position(ss: Seq<ConversationSummary>, id: Seq<char>) -> Option<int> {
    if exists|i: int| 0 <= i < ss.len() && ss[i].id@ == id {
        Some(choose|i: int| 0 <= i < ss.len() && ss[i].id@ == id)
    } else {
        None
    }
}

/// No two summaries share an identifier.
pub open spec fn distinct_summary_ids(ss: Seq<ConversationSummary>) -> bool {
    forall|i: int, j: int| 0 <= i < j < ss.len() ==> ss[i].id@ != ss[j].id@
}

/// The summaries after saving one: it replaces the one with its
/// identifier in place, or is appended.
pub open spec fn summary_saved(ss: Seq<ConversationSummary>, s: ConversationSummary) -> Seq<ConversationSummary> {
    match summary_position(ss, s.id@) {
        Some(i) => ss.update(i, s),
        None => ss.push(s),
    }
}

/// Position of the index entry of the conversation, if any.
pub open spec fn index_position(index: Seq<(Seq<char>, Seq<Seq<char>>)>, conversation_id: Seq<char>) -> Option<int> {
    if exists|i: int| 0 <= i < index.len() && index[i].0 == conversation_id {
        Some(choose|i: int| 0 <= i < index.len() && index[i].0 == conversation_id)
    } else {
        None
    }
}

/// The summary identifiers recorded for the conversation, in the order
/// they were first saved.
pub open spec fn indexed_ids(index: Seq<(Seq<char>, Seq<Seq<char>>)>, conversation_id: Seq<char>) -> Seq<Seq<char>> {
    match index_position(index, conversation_id) {
        Some(i) => index[i].1,
        None => Seq::empty(),
    }
}

/// The index after recording a summary identifier for its conversation
/// (once).
pub open spec fn index_recorded(index: Seq<(Seq<char>, Seq<Seq<char>>)>, conversation_id: Seq<char>, id: Seq<char>)
    -> Seq<(Seq<char>, Seq<Seq<char>>)> {
    match index_position(index, conversation_id) {
        Some(i) => if index[i].1.contains(id) {
            index
        } else {
            index.update(i, (conversation_id, index[i].1.push(id)))
        },
        None => index.push((conversation_id, seq![id])),
    }
}

/// The summaries of the identifiers that are stored, in the order of the
/// identifiers.
pub open spec fn stored_summaries(ss: Seq<ConversationSummary>, ids: Seq<Seq<char>>) -> Seq<ConversationSummary>
    decreases ids.len(),
{
    if ids.len() == 0 {
        Seq::empty()
    } else {
        match summary_position(ss, ids.last()) {
            Some(i) => stored_summaries(ss, ids.drop_last()).push(ss[i]),
            None => stored_summaries(ss, ids.drop_last()),
        }
    }
}

/// The versions of summaries, as ranking keys.
pub open spec fn version_keys(ss: Seq<ConversationSummary>) -> Seq<u128> {
    Seq::new(ss.len(), |i: int| ss[i].version as u128)
}

/// `r` lists the conversation's stored summaries, highest version first,
/// ties in the order they were first saved.
pub open spec fn summary_listing(ss: Seq<ConversationSummary>, index: Seq<(Seq<char>, Seq<Seq<char>>)>,
    conversation_id: Seq<char>, r: Seq<ConversationSummary>) -> bool {
    let found = stored_summaries(ss, indexed_ids(index, conversation_id));
    exists|order: Seq<usize>|
        #![trigger is_ranking(version_keys(found), order)]
        is_ranking(version_keys(found), order) && r == order.map_values(|i: usize| found[i as int])
}

/// The index after forgetting a summary identifier of the conversation.
pub open spec fn index_forgotten(index: Seq<(Seq<char>, Seq<Seq<char>>)>, conversation_id: Seq<char>, id: Seq<char>)
    -> Seq<(Seq<char>, Seq<Seq<char>>)> {
    match index_position(index, conversation_id) {
        Some(i) => index.update(i, (conversation_id, index[i].1.filter(|x: Seq<char>| x != id))),
        None => index,
    }
}

/// The views of strings.
pub open spec fn id_views(v: Seq<String>) -> Seq<Seq<char>> {
    v.map_values(|s: String| s@)
}

fn clone_ids(v: &Vec<String>) -> (r: Vec<String>)
    ensures
        id_views(r@) == id_views(v@),
{
    let mut r: Vec<String> = Vec::new();
    let mut i: usize = 0;
    while i < v.len()
        invariant
            i <= v@.len(),
            r@.len() == i,
            forall|k: int| 0 <= k < i ==> r@[k]@ == v@[k]@,
        decreases v@.len() - i,
    {
        r.push(v[i].clone());
        i = i + 1;
    }
    assert(id_views(r@) =~= id_views(v@));
    r
}

fn holds_id(v: &Vec<String>, id: &str) -> (b: bool)
    ensures
        b == id_views(v@).contains(id@),
{
    let mut i: usize = 0;
    while i < v.len()
        invariant
            i <= v@.len(),
            forall|k: int| 0 <= k < i ==> v@[k]@ != id@,
        decreases v@.len() - i,
    {
        if crate::json::str_equals(v[i].as_str(), id) {
            assert(id_views(v@)[i as int] == id@);
            return true;
        }
        i = i + 1;
    }
    assert forall|k: int| 0 <= k < id_views(v@).len() implies id_views(v@)[k] != id@ by {
        assert(v@[k]@ != id@);
    }
    false
}

fn without_id(v: &Vec<String>, id: &str) -> (r: Vec<String>)
    ensures
        id_views(r@) == id_views(v@).filter(|x: Seq<char>| x != id@),
{
    let ghost pred = |x: Seq<char>| x != id@;
    let mut r: Vec<String> = Vec::new();
    let mut i: usize = 0;
    assert(id_views(v@).subrange(0, 0) =~= Seq::<Seq<char>>::empty());
    while i < v.len()
        invariant
            i <= v@.len(),
            pred == (|x: Seq<char>| x != id@),
            id_views(r@) == id_views(v@).subrange(0, i as int).filter(pred),
        decreases v@.len() - i,
    {
        proof {
            assert(id_views(v@).subrange(0, i + 1) =~= id_views(v@).subrange(0, i as int).push(v@[i as int]@));
            id_views(v@).subrange(0, i as int).lemma_filter_push(v@[i as int]@, pred);
        }
        if !crate::json::str_equals(v[i].as_str(), id) {
            let ghost before = r@;
            r.push(v[i].clone());
            assert(id_views(r@) =~= id_views(before).push(v@[i as int]@));
        }
        i = i + 1;
    }
    assert(id_views(v@).subrange(0, v@.len() as int) =~= id_views(v@));
    r
}

/// No two index entries are for the same conversation.
pub open spec fn distinct_index(index: Seq<(Seq<char>, Seq<Seq<char>>)>) -> bool {
    forall|i: int, j: int| 0 <= i < j < index.len() ==> index[i].0 != index[j].0
}

/// Reading after a save: the saved summary is found by its identifier,
/// every other identifier finds what it found before, and the summary's
/// identifier is recorded for its conversation.
pub proof fn lemma_summary_read_after_save(
    ss: Seq<ConversationSummary>,
    index: Seq<(Seq<char>, Seq<Seq<char>>)>,
    s: ConversationSummary,
    other: Seq<char>,
)
    requires
        distinct_summary_ids(ss),
        distinct_index(index),
    ensures
        summary_position(summary_saved(ss, s), s.id@) matches Some(i) && summary_saved(ss, s)[i] == s,
        other != s.id@ ==> match summary_position(ss, other) {
            None => summary_position(summary_saved(ss, s), other) is None,
            Some(j) => summary_position(summary_saved(ss, s), other) matches Some(k) && summary_saved(ss, s)[k] == ss[j],
        },
        indexed_ids(index_recorded(index, s.conversation_id@, s.id@), s.conversation_id@).contains(s.id@),
{
    let saved = summary_saved(ss, s);
    let n = ss.len() as int;
    let at = match summary_position(ss, s.id@) { Some(i) => i, None => n };
    assert(saved[at] == s);
    let p = summary_position(saved, s.id@)->0;
    assert(saved[p].id@ == s.id@);
    if p != at {
        assert(ss[p].id@ == s.id@);
        assert(ss[at].id@ == s.id@);
    }
    if other != s.id@ {
        match summary_position(ss, other) {
            None => {
                if summary_position(saved, other) is Some {
                    let k = summary_position(saved, other)->0;
                    assert(saved[k].id@ == other);
                    assert(k != at);
                    assert(ss[k].id@ == other);
                }
            },
            Some(j) => {
                assert(j != at);
                assert(saved[j] == ss[j]);
                let k = summary_position(saved, other)->0;
                assert(saved[k].id@ == other);
                if k != j {
                    assert(k != at);
                    assert(ss[k].id@ == other);
                }
            },
        }
    }
    let recorded = index_recorded(index, s.conversation_id@, s.id@);
    let cid = s.conversation_id@;
    match index_position(index, cid) {
        Some(i) => {
            assert(recorded[i].0 == cid);
            let q = index_position(recorded, cid)->0;
            assert(recorded[q].0 == cid);
            if q != i {
                assert(index[q].0 == cid);
                assert(index[i].0 == cid);
            }
            if !index[i].1.contains(s.id@) {
                assert(index[i].1.push(s.id@)[index[i].1.len() as int] == s.id@);
            }
        },
        None => {
            let m = index.len() as int;
            assert(recorded[m].0 == cid);
            let q = index_position(recorded, cid)->0;
            assert(recorded[q].0 == cid);
            if q != m {
                assert(index[q].0 == cid);
            }
            assert(seq![s.id@][0] == s.id@);
        },
    }
}

/// Summaries kept in memory, with the identifiers recorded for each
/// conversation.
pub struct InMemorySummaryStorage {
    summaries: Vec<ConversationSummary>,
    conversation_summaries: Vec<(String, Vec<String>)>,
}

impl InMemorySummaryStorage {
    /// The summaries, in the order their identifiers were first saved.
    pub closed spec fn summaries_view(&self) -> Seq<ConversationSummary> {
        self.summaries@
    }

    /// For each conversation, the identifiers of its summaries.
    pub closed spec fn index_view(&self) -> Seq<(Seq<char>, Seq<Seq<char>>)> {
        self.conversation_summaries@.map_values(|e: (String, Vec<String>)| (e.0@, e.1@.map_values(|s: String| s@)))
    }

    /// Identifiers are unique, and so are the conversations of the index.
    pub closed spec fn wf(&self) -> bool {
        &&& distinct_summary_ids(self.summaries@)
        &&& forall|i: int, j: int| 0 <= i < j < self.conversation_summaries@.len() ==>
            self.conversation_summaries@[i].0@ != self.conversation_summaries@[j].0@
    }

    /// In a well-formed storage, identifiers and index entries are unique.
    pub proof fn lemma_wf_distinct(&self)
        requires
            self.wf(),
        ensures
            distinct_summary_ids(self.summaries_view()),
            distinct_index(self.index_view()),
    {
        assert forall|i: int, j: int| 0 <= i < j < self.index_view().len() implies
            self.index_view()[i].0 != self.index_view()[j].0 by {
            assert(self.conversation_summaries@[i].0@ != self.conversation_summaries@[j].0@);
        }
    }

    /// An empty storage.
    pub fn new() -> (s: Self)
        ensures
            s.wf(),
            s.summaries_view() == Seq::<ConversationSummary>::empty(),
            s.index_view() == Seq::<(Seq<char>, Seq<Seq<char>>)>::empty(),
    {
        let s = InMemorySummaryStorage { summaries: Vec::new(), conversation_summaries: Vec::new() };
        assert(s.index_view() =~= Seq::<(Seq<char>, Seq<Seq<char>>)>::empty());
        s
    }

    fn position(&self, id: &str) -> (r: Option<usize>)
        requires
            self.wf(),
        ensures
            match summary_position(self.summaries_view(), id@) {
                None => r is None,
                Some(i) => r is Some && r->0 == i,
            },
    {
        let mut i: usize = 0;
        while i < self.summaries.len()
            invariant
                i <= self.summaries@.len(),
                distinct_summary_ids(self.summaries@),
                forall|k: int| 0 <= k < i ==> self.summaries@[k].id@ != id@,
            decreases self.summaries@.len() - i,
        {
            if crate::json::str_equals(self.summaries[i].id.as_str(), id) {
                proof {
                    let j = summary_position(self.summaries@, id@)->0;
                    assert(self.summaries@[j].id@ == id@);
                    assert(j == i);
                }
                return Some(i);
            }
            i = i + 1;
        }
        None
    }

    fn index_of(&self, conversation_id: &str) -> (r: Option<usize>)
        requires
            self.wf(),
        ensures
            match index_position(self.index_view(), conversation_id@) {
                None => r is None,
                Some(i) => r is Some && r->0 == i,
            },
    {
        let ghost iv = self.index_view();
        let mut i: usize = 0;
        while i < self.conversation_summaries.len()
            invariant
                i <= self.conversation_summaries@.len(),
                iv == self.index_view(),
                self.wf(),
                forall|k: int| 0 <= k < i ==> iv[k].0 != conversation_id@,
            decreases self.conversation_summaries@.len() - i,
        {
            if crate::json::str_equals(self.conversation_summaries[i].0.as_str(), conversation_id) {
                proof {
                    assert(iv[i as int].0 == conversation_id@);
                    let j = index_position(iv, conversation_id@)->0;
                    assert(iv[j].0 == conversation_id@);
                    if j != i {
                        assert(self.conversation_summaries@[j].0@ == self.conversation_summaries@[i as int].0@);
                    }
                }
                return Some(i);
            }
            i = i + 1;
        }
        None
    }

    /// Saves a summary, replacing the one with its identifier, and records
    /// its identifier for its conversation.
    pub fn save_summary(&mut self, summary: ConversationSummary)
        requires
            old(self).wf(),
        ensures
            final(self).wf(),
            final(self).summaries_view() == summary_saved(old(self).summaries_view(), summary),
            final(self).index_view() == index_recorded(old(self).index_view(), summary.conversation_id@, summary.id@),
    {
        let ghost s = summary;
        let id = summary.id.clone();
        let cid = summary.conversation_id.clone();
        match self.position(id.as_str()) {
            Some(i) => {
                self.summaries.set(i, summary);
                assert(self.summaries@ == old(self).summaries@.update(i as int, s));
            },
            None => {
                self.summaries.push(summary);
                proof {
                    assert forall|a: int, b: int| 0 <= a < b < self.summaries@.len() implies
                        self.summaries@[a].id@ != self.summaries@[b].id@ by {
                        if b == self.summaries@.len() - 1 {
                            assert(old(self).summaries@[a].id@ != s.id@);
                        }
                    }
                }
            },
        }
        let ghost iv = old(self).index_view();
        assert(self.index_view() == iv);
        match self.index_of(cid.as_str()) {
            Some(i) => {
                if !holds_id(&self.conversation_summaries[i].1, id.as_str()) {
                    let mut ids = clone_ids(&self.conversation_summaries[i].1);
                    let ghost before = ids@;
                    ids.push(id);
                    assert(id_views(ids@) =~= id_views(before).push(s.id@));
                    let key = self.conversation_summaries[i].0.clone();
                    let ghost old_entries = self.conversation_summaries@;
                    self.conversation_summaries.set(i, (key, ids));
                    assert(self.index_view() =~= iv.update(i as int, (s.conversation_id@, iv[i as int].1.push(s.id@))));
                    assert forall|a: int, b: int| 0 <= a < b < self.conversation_summaries@.len() implies
                        self.conversation_summaries@[a].0@ != self.conversation_summaries@[b].0@ by {
                        assert(self.conversation_summaries@[a].0@ == old_entries[a].0@);
                        assert(self.conversation_summaries@[b].0@ == old_entries[b].0@);
                    }
                }
            },
            None => {
                let mut ids: Vec<String> = Vec::new();
                ids.push(id);
                let ghost old_entries = self.conversation_summaries@;
                assert forall|k: int| 0 <= k < old_entries.len() implies old_entries[k].0@ != cid@ by {
                    assert(iv[k].0 == old_entries[k].0@);
                }
                self.conversation_summaries.push((cid, ids));
                assert(id_views(ids@) =~= seq![s.id@]);
                assert(self.index_view() =~= iv.push((s.conversation_id@, seq![s.id@])));
            },
        }
    }

    /// The stored summaries of the conversation, highest version first
    /// (ties in the order they were first saved).
    pub fn list_summaries(&self, conversation_id: &str) -> (r: Vec<&ConversationSummary>)
        requires
            self.wf(),
        ensures
            summary_listing(self.summaries_view(), self.index_view(), conversation_id@, r@.map_values(
                |s: &ConversationSummary| *s)),
    {
        let ghost ids = indexed_ids(self.index_view(), conversation_id@);
        let mut found: Vec<&ConversationSummary> = Vec::new();
        match self.index_of(conversation_id) {
            Some(k) => {
                let list = &self.conversation_summaries[k].1;
                assert(id_views(list@) == ids);
                let mut i: usize = 0;
                assert(ids.subrange(0, 0) =~= Seq::<Seq<char>>::empty());
                while i < list.len()
                    invariant
                        i <= list@.len(),
                        self.wf(),
                        id_views(list@) == ids,
                        found@.map_values(|s: &ConversationSummary| *s) == stored_summaries(self.summaries@, ids.subrange(0, i as int)),
                    decreases list@.len() - i,
                {
                    assert(ids.subrange(0, i + 1).drop_last() =~= ids.subrange(0, i as int));
                    assert(ids.subrange(0, i + 1).last() == list@[i as int]@);
                    match self.position(list[i].as_str()) {
                        Some(p) => {
                            let ghost before = found@;
                            found.push(&self.summaries[p]);
                            assert(found@.map_values(|s: &ConversationSummary| *s) =~= before.map_values(
                                |s: &ConversationSummary| *s).push(self.summaries@[p as int]));
                        },
                        None => {},
                    }
                    i = i + 1;
                }
                assert(ids.subrange(0, list@.len() as int) =~= ids);
            },
            None => {
                assert(found@.map_values(|s: &ConversationSummary| *s) =~= stored_summaries(self.summaries@, ids));
            },
        }
        let ghost fv = found@.map_values(|s: &ConversationSummary| *s);
        let mut keys: Vec<u128> = Vec::new();
        let mut j: usize = 0;
        while j < found.len()
            invariant
                j <= found@.len(),
                fv == found@.map_values(|s: &ConversationSummary| *s),
                keys@ =~= version_keys(fv).subrange(0, j as int),
            decreases found@.len() - j,
        {
            keys.push(found[j].version as u128);
            j = j + 1;
        }
        assert(keys@ =~= version_keys(fv));
        let order = rank_desc(&keys);
        let mut r: Vec<&ConversationSummary> = Vec::new();
        let mut a: usize = 0;
        while a < order.len()
            invariant
                a <= order@.len(),
                is_ranking(version_keys(fv), order@),
                fv == found@.map_values(|s: &ConversationSummary| *s),
                r@.len() == a,
                forall|k: int| 0 <= k < a ==> *r@[k] == fv[order@[k] as int],
            decreases order@.len() - a,
        {
            assert(order@[a as int] < fv.len());
            r.push(found[order[a]]);
            a = a + 1;
        }
        assert(r@.map_values(|s: &ConversationSummary| *s) =~= order@.map_values(|i: usize| fv[i as int]));
        assert(is_ranking(version_keys(fv), order@) && r@.map_values(|s: &ConversationSummary| *s) == order@.map_values(
            |i: usize| fv[i as int]));
        r
    }

    /// Deletes the summary with the identifier, if any, and forgets its
    /// identifier for its conversation.
    pub fn delete_summary(&mut self, summary_id: &str)
        requires
            old(self).wf(),
        ensures
            final(self).wf(),
            match summary_position(old(self).summaries_view(), summary_id@) {
                None => final(self).summaries_view() == old(self).summaries_view()
                    && final(self).index_view() == old(self).index_view(),
                Some(i) => final(self).summaries_view() == old(self).summaries_view().remove(i)
                    && final(self).index_view() == index_forgotten(old(self).index_view(),
                        old(self).summaries_view()[i].conversation_id@, summary_id@),
            },
    {
        let p = match self.position(summary_id) {
            Some(p) => p,
            None => {
                return;
            },
        };
        let cid = self.summaries[p].conversation_id.clone();
        let _ = self.summaries.remove(p);
        proof {
            assert forall|a: int, b: int| 0 <= a < b < self.summaries@.len() implies
                self.summaries@[a].id@ != self.summaries@[b].id@ by {
                let aa = if a < p { a } else { a + 1 };
                let bb = if b < p { b } else { b + 1 };
                assert(self.summaries@[a] == old(self).summaries@[aa]);
                assert(self.summaries@[b] == old(self).summaries@[bb]);
            }
        }
        let ghost iv = old(self).index_view();
        assert(self.index_view() == iv);
        match self.index_of(cid.as_str()) {
            Some(i) => {
                let ids = without_id(&self.conversation_summaries[i].1, summary_id);
                let key = self.conversation_summaries[i].0.clone();
                let ghost old_entries = self.conversation_summaries@;
                self.conversation_summaries.set(i, (key, ids));
                assert forall|a: int, b: int| 0 <= a < b < self.conversation_summaries@.len() implies
                    self.conversation_summaries@[a].0@ != self.conversation_summaries@[b].0@ by {
                    assert(self.conversation_summaries@[a].0@ == old_entries[a].0@);
                    assert(self.conversation_summaries@[b].0@ == old_entries[b].0@);
                }
                assert(self.index_view() =~= iv.update(i as int, (cid@, iv[i as int].1.filter(|x: Seq<char>| x != summary_id@))));
            },
            None => {},
        }
    }

    /// The summary with the identifier, if any.
    pub fn get_summary(&self, summary_id: &str) -> (r: Option<&ConversationSummary>)
        requires
            self.wf(),
        ensures
            match summary_position(self.summaries_view(), summary_id@) {
                None => r is None,
                Some(i) => r is Some && *r->0 == self.summaries_view()[i],
            },
    {
        match self.position(summary_id) {
            Some(i) => Some(&self.summaries[i]),
            None => None,
        }
    }
}

} // verus!
