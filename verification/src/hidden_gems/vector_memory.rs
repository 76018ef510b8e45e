//! The page memory: what the server has seen, stored by key (a URL) and
//! searched by substring over keys and contents.
use vstd::prelude::*;

use crate::text::{has_sub, owned, str_contains};

verus! {

/// A stored item: its key and its content.
pub struct MemoryEntry {
    pub key: String,
    pub content: String,
}

impl View for MemoryEntry {
    type V = (Seq<char>, Seq<char>);

    open spec fn view(&self) -> (Seq<char>, Seq<char>) {
        (self.key@, self.content@)
    }
}

/// The views of a sequence of entries.
pub open spec fn entries_view(v: Seq<MemoryEntry>) -> Seq<(Seq<char>, Seq<char>)> {
    v.map_values(|e: MemoryEntry| e@)
}

/// No key occurs twice.
pub open spec fn keys_unique(s: Seq<(Seq<char>, Seq<char>)>) -> bool {
    forall|i: int, j: int| 0 <= i < j < s.len() ==> #[trigger] s[i].0 != #[trigger] s[j].0
}

/// Whether `key` is stored in `s`.
pub open spec fn has_key(s: Seq<(Seq<char>, Seq<char>)>, key: Seq<char>) -> bool {
    exists|i: int| 0 <= i < s.len() && #[trigger] s[i].0 == key
}

/// The entries after storing `content` under `key`: the content of an
/// existing key is replaced in place, a new key is added at the end.
pub open spec fn after_store(
    s: Seq<(Seq<char>, Seq<char>)>,
    key: Seq<char>,
    content: Seq<char>,
) -> Seq<(Seq<char>, Seq<char>)> {
    if has_key(s, key) {
        s.update(choose|i: int| 0 <= i < s.len() && #[trigger] s[i].0 == key, (key, content))
    } else {
        s.push((key, content))
    }
}

/// Whether an entry matches a query: the query occurs in its key or in its
/// content.
pub open spec fn entry_matches(query: Seq<char>) -> spec_fn((Seq<char>, Seq<char>)) -> bool {
    |e: (Seq<char>, Seq<char>)| has_sub(e.0, query) || has_sub(e.1, query)
}

/// The entries that match `query`, in stored order.
pub open spec fn search_results(
    s: Seq<(Seq<char>, Seq<char>)>,
    query: Seq<char>,
) -> Seq<(Seq<char>, Seq<char>)> {
    s.filter(entry_matches(query))
}

/// The answer to a search: the query, the matching entries and whether the
/// store persists across runs.
pub struct MemorySearch {
    pub query: String,
    pub results: Vec<MemoryEntry>,
    pub persistent: bool,
}

/// The page memory. Items live in memory for the life of the server.
pub struct PersistentVectorMemory {
    entries: Vec<MemoryEntry>,
}

/// The memory the tool registry keeps.
pub type VectorMemory = PersistentVectorMemory;

impl View for PersistentVectorMemory {
    type V = Seq<(Seq<char>, Seq<char>)>;

    closed spec fn view(&self) -> Seq<(Seq<char>, Seq<char>)> {
        entries_view(self.entries@)
    }
}

impl PersistentVectorMemory {
    /// The memory's invariant: no key is stored twice.
    pub open spec fn well_formed(&self) -> bool {
        keys_unique(self@)
    }

    /// An empty memory.
    pub fn new() -> (r: Self)
        ensures
            r.well_formed(),
            r@ == Seq::<(Seq<char>, Seq<char>)>::empty(),
    {
        let r = PersistentVectorMemory { entries: Vec::new() };
        assert(r@ =~= Seq::<(Seq<char>, Seq<char>)>::empty());
        r
    }

    /// The number of stored items.
    pub fn len(&self) -> (n: usize)
        ensures
            n == self@.len(),
    {
        self.entries.len()
    }

    /// Stores `content` under `key`, replacing what the key held.
    pub fn store(&mut self, key: &str, content: &str)
        requires
            old(self).well_formed(),
        ensures
            final(self).well_formed(),
            final(self)@ == after_store(old(self)@, key@, content@),
    {
        let ghost s = self@;
        let mut i: usize = 0;
        while i < self.entries.len()
            invariant
                i <= self.entries@.len(),
                self@ == s,
                s == old(self)@,
                keys_unique(s),
                forall|j: int| 0 <= j < i ==> #[trigger] s[j].0 != key@,
            decreases self.entries@.len() - i,
        {
            if crate::text::str_equal(self.entries[i].key.as_str(), key) {
                let entry = MemoryEntry { key: owned(key), content: owned(content) };
                self.entries.set(i, entry);
                proof {
                    assert(s[i as int].0 == key@);
                    assert(has_key(s, key@));
                    let c = choose|j: int| 0 <= j < s.len() && #[trigger] s[j].0 == key@;
                    assert(c == i as int);
                    assert(after_store(s, key@, content@) == s.update(i as int, (key@, content@)));
                    assert(self@ =~= s.update(i as int, (key@, content@)));
                }
                return;
            }
            i = i + 1;
        }
        self.entries.push(MemoryEntry { key: owned(key), content: owned(content) });
        proof {
            assert(!has_key(s, key@));
            assert(self@ =~= s.push((key@, content@)));
        }
    }

    /// The stored entries whose key or content contains `query`, in stored
    /// order.
    pub fn search(&self, query: &str) -> (r: MemorySearch)
        ensures
            r.query@ == query@,
            entries_view(r.results@) == search_results(self@, query@),
            !r.persistent,
    {
        let ghost s = self@;
        let mut results: Vec<MemoryEntry> = Vec::new();
        let mut i: usize = 0;
        while i < self.entries.len()
            invariant
                i <= self.entries@.len(),
                s == self@,
                entries_view(results@) == s.take(i as int).filter(entry_matches(query@)),
            decreases self.entries@.len() - i,
        {
            let k = self.entries[i].key.as_str();
            let c = self.entries[i].content.as_str();
            let hit = str_contains(k, query) || str_contains(c, query);
            proof {
                reveal(Seq::filter);
                assert(s.take(i as int + 1).drop_last() =~= s.take(i as int));
                assert(s.take(i as int + 1).last() == s[i as int]);
            }
            if hit {
                results.push(MemoryEntry { key: owned(k), content: owned(c) });
                proof {
                    assert(entries_view(results@) =~= s.take(i as int).filter(entry_matches(query@)).push(
                        s[i as int],
                    ));
                }
            }
            i = i + 1;
        }
        proof {
            assert(s.take(s.len() as int) =~= s);
        }
        MemorySearch { query: owned(query), results, persistent: false }
    }
}

/// A read gives back a write: after `content` is stored under `key`, the
/// store maps `key` to `content`, and every query that occurs in the key or
/// in the content finds that entry.
pub proof fn lemma_store_then_search(
    s: Seq<(Seq<char>, Seq<char>)>,
    key: Seq<char>,
    content: Seq<char>,
    query: Seq<char>,
)
    requires
        keys_unique(s),
        has_sub(key, query) || has_sub(content, query),
    ensures
        has_key(after_store(s, key, content), key),
        search_results(after_store(s, key, content), query).contains((key, content)),
        keys_unique(after_store(s, key, content)),
{
    let t = after_store(s, key, content);
    let i: int = if has_key(s, key) {
        choose|i: int| 0 <= i < s.len() && #[trigger] s[i].0 == key
    } else {
        s.len() as int
    };
    assert(t[i] == (key, content));
    assert(t[i].0 == key);
    assert(has_key(t, key));
    assert(entry_matches(query)(t[i]));
    t.lemma_filter_contains(entry_matches(query), i);
    assert forall|a: int, b: int| 0 <= a < b < t.len() implies #[trigger] t[a].0 != #[trigger] t[b].0 by {
        if has_key(s, key) {
            if a != i && b != i {
                assert(s[a].0 != s[b].0);
            } else if a == i {
                assert(s[b].0 != s[i].0);
            } else {
                assert(s[a].0 != s[i].0);
            }
        } else {
            if b == i {
                assert(s[a].0 != key);
            }
        }
    }
}

/// A search finds exactly the stored entries whose key or content contains
/// the query, and nothing else.
pub proof fn lemma_search_exact(s: Seq<(Seq<char>, Seq<char>)>, query: Seq<char>)
    ensures
        forall|i: int| 0 <= i < search_results(s, query).len() ==> {
            let e = #[trigger] search_results(s, query)[i];
            (has_sub(e.0, query) || has_sub(e.1, query)) && s.contains(e)
        },
        forall|i: int| 0 <= i < s.len() && (has_sub(s[i].0, query) || has_sub(s[i].1, query))
            ==> #[trigger] search_results(s, query).contains(s[i]),
{
    let p = entry_matches(query);
    assert forall|i: int| 0 <= i < search_results(s, query).len() implies {
        let e = #[trigger] search_results(s, query)[i];
        (has_sub(e.0, query) || has_sub(e.1, query)) && s.contains(e)
    } by {
        s.lemma_filter_pred(p, i);
        let e = search_results(s, query)[i];
        assert(s.filter(p).contains(e));
        s.lemma_filter_contains_rev(p, e);
    }
    assert forall|i: int| 0 <= i < s.len() && (has_sub(s[i].0, query) || has_sub(s[i].1, query))
        implies #[trigger] search_results(s, query).contains(s[i]) by {
        s.lemma_filter_contains(p, i);
    }
}

/// Storing under one key leaves every entry of another key as it was.
pub proof fn lemma_store_keeps_others(
    s: Seq<(Seq<char>, Seq<char>)>,
    key: Seq<char>,
    content: Seq<char>,
)
    ensures
        forall|i: int| 0 <= i < s.len() && s[i].0 != key ==> after_store(s, key, content).contains(#[trigger] s[i]),
        forall|e: (Seq<char>, Seq<char>)| #[trigger] after_store(s, key, content).contains(e) && e.0 != key
            ==> s.contains(e),
{
    let t = after_store(s, key, content);
    assert forall|i: int| 0 <= i < s.len() && s[i].0 != key implies t.contains(#[trigger] s[i]) by {
        assert(t[i] == s[i]);
    }
    assert forall|e: (Seq<char>, Seq<char>)| #[trigger] t.contains(e) && e.0 != key implies s.contains(e) by {
        let j = choose|j: int| 0 <= j < t.len() && t[j] == e;
        if has_key(s, key) {
            assert(s[j] == e);
        } else {
            assert(j < s.len());
            assert(s[j] == e);
        }
    }
}

} // verus!
