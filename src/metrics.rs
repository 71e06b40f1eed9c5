use vstd::prelude::*;
use vstd::string::*;

verus! {

/// A counter that stops at the largest `u64` instead of wrapping.
pub open spec fn bump(x: u64) -> u64 {
    if x == u64::MAX {
        x
    } else {
        (x + 1) as u64
    }
}

/// What the metrics hold: cache hits, cache misses, and how often each
/// term was searched for (a term never searched for is absent).
pub ghost struct MetricsView {
    pub hits: u64,
    pub misses: u64,
    pub searched: Map<Seq<char>, u64>,
}

impl MetricsView {
    pub open spec fn empty() -> MetricsView {
        MetricsView { hits: 0, misses: 0, searched: Map::empty() }
    }

    /// How often `term` was searched for.
    pub open spec fn times_searched(self, term: Seq<char>) -> u64 {
        if self.searched.contains_key(term) {
            self.searched[term]
        } else {
            0
        }
    }

    pub open spec fn with_hit(self) -> MetricsView {
        MetricsView { hits: bump(self.hits), ..self }
    }

    pub open spec fn with_miss(self) -> MetricsView {
        MetricsView { misses: bump(self.misses), ..self }
    }

    pub open spec fn with_search(self, term: Seq<char>) -> MetricsView {
        MetricsView { searched: self.searched.insert(term, bump(self.times_searched(term))), ..self }
    }
}

/// The count kept for one search term.
pub struct TermCount {
    pub term: String,
    pub count: u64,
}

/// Process-wide counters of cache hits and misses and of searched terms.
/// Counters saturate at the largest `u64`.
pub struct Metrics {
    hits: u64,
    misses: u64,
    terms: Vec<TermCount>,
    searched: Ghost<Map<Seq<char>, u64>>,
}

impl View for Metrics {
    type V = MetricsView;

    closed spec fn view(&self) -> MetricsView {
        MetricsView { hits: self.hits, misses: self.misses, searched: self.searched@ }
    }
}

/// After an entry for `t` stands at `pos` and the earlier entries keep their
/// terms, every key of the map with `t` set has an entry.
proof fn lemma_entries_cover(
    before: Seq<TermCount>,
    after: Seq<TermCount>,
    counts: Map<Seq<char>, u64>,
    t: Seq<char>,
    c: u64,
    pos: int,
)
    requires
        forall|u: Seq<char>| #[trigger] counts.contains_key(u) ==> exists|k: int|
            0 <= k < before.len() && #[trigger] before[k].term@ == u,
        before.len() <= after.len(),
        forall|k: int| 0 <= k < before.len() ==> #[trigger] after[k].term@ == before[k].term@,
        0 <= pos < after.len(),
        after[pos].term@ == t,
    ensures
        forall|u: Seq<char>| #[trigger] counts.insert(t, c).contains_key(u) ==> exists|k: int|
            0 <= k < after.len() && #[trigger] after[k].term@ == u,
{
    assert forall|u: Seq<char>| #[trigger] counts.insert(t, c).contains_key(u) implies exists|k: int|
        0 <= k < after.len() && #[trigger] after[k].term@ == u by {
        if u != t {
            let k = choose|k: int| 0 <= k < before.len() && #[trigger] before[k].term@ == u;
            assert(after[k].term@ == u);
        } else {
            assert(after[pos].term@ == u);
        }
    }
}

impl Metrics {
    /// Each term has one entry, and the entries are exactly the searched map.
    pub closed spec fn wf(&self) -> bool {
        &&& forall|i: int, j: int|
            0 <= i < self.terms.len() && 0 <= j < self.terms.len() && i != j
                ==> #[trigger] self.terms@[i].term@ != #[trigger] self.terms@[j].term@
        &&& forall|i: int|
            0 <= i < self.terms.len() ==> self.searched@.contains_key(
                #[trigger] self.terms@[i].term@,
            ) && self.searched@[self.terms@[i].term@] == self.terms@[i].count
        &&& forall|t: Seq<char>|
            #[trigger] self.searched@.contains_key(t) ==> exists|i: int|
                0 <= i < self.terms.len() && #[trigger] self.terms@[i].term@ == t
    }

    pub fn new() -> (r: Metrics)
        ensures
            r.wf(),
            r@ == MetricsView::empty(),
    {
        Metrics { hits: 0, misses: 0, terms: Vec::new(), searched: Ghost(Map::empty()) }
    }

    pub fn hits(&self) -> (r: u64)
        ensures
            r == self@.hits,
    {
        self.hits
    }

    pub fn misses(&self) -> (r: u64)
        ensures
            r == self@.misses,
    {
        self.misses
    }

    pub fn record_hit(&mut self)
        requires
            old(self).wf(),
        ensures
            final(self).wf(),
            final(self)@ == old(self)@.with_hit(),
    {
        if self.hits < u64::MAX {
            self.hits = self.hits + 1;
        }
    }

    pub fn record_miss(&mut self)
        requires
            old(self).wf(),
        ensures
            final(self).wf(),
            final(self)@ == old(self)@.with_miss(),
    {
        if self.misses < u64::MAX {
            self.misses = self.misses + 1;
        }
    }

    /// The position of the entry for `term`, if there is one.
    fn find_term(&self, term: &str) -> (r: Option<usize>)
        requires
            self.wf(),
        ensures
            r is Some ==> r->0 < self.terms.len() && self.terms@[r->0 as int].term@ == term@,
            r is None ==> !self.searched@.contains_key(term@),
    {
        let key = String::from_str(term);
        let mut i: usize = 0;
        while i < self.terms.len()
            invariant
                self.wf(),
                key@ == term@,
                i <= self.terms.len(),
                forall|k: int| 0 <= k < i ==> #[trigger] self.terms@[k].term@ != term@,
            decreases self.terms.len() - i,
        {
            if self.terms[i].term == key {
                return Some(i);
            }
            i += 1;
        }
        None
    }

    /// How often `term` was searched for.
    pub fn times_searched(&self, term: &str) -> (r: u64)
        requires
            self.wf(),
        ensures
            r == self@.times_searched(term@),
    {
        match self.find_term(term) {
            Some(i) => self.terms[i].count,
            None => 0,
        }
    }

    /// Counts one search for `term`.
    pub fn record_search(&mut self, term: &str)
        requires
            old(self).wf(),
        ensures
            final(self).wf(),
            final(self)@ == old(self)@.with_search(term@),
    {
        let ghost t = term@;
        match self.find_term(term) {
            Some(i) => {
                let c = self.terms[i].count;
                let n = if c < u64::MAX { c + 1 } else { c };
                let entry = TermCount { term: String::from_str(term), count: n };
                self.terms.set(i, entry);
                self.searched = Ghost(self.searched@.insert(t, n));
                proof {
                    lemma_entries_cover(old(self).terms@, self.terms@, old(self).searched@, t, n, i as int);
                }
            },
            None => {
                let entry = TermCount { term: String::from_str(term), count: 1 };
                self.terms.push(entry);
                self.searched = Ghost(self.searched@.insert(t, 1));
                proof {
                    lemma_entries_cover(old(self).terms@, self.terms@, old(self).searched@, t, 1, self.terms.len() - 1);
                }
            },
        }
        assert(self@.searched =~= old(self)@.with_search(t).searched);
    }
}

} // verus!
