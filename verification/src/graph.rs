//! The term co-occurrence graph built from a text: every pair of adjacent
//! words, lowercased, is joined by an edge in both directions.
//!
//! The graph is modelled as a map from each term to the set of its
//! neighbours; a term appears as a key exactly when some edge touches it.

use vstd::prelude::*;

use crate::text::words_of;

verus! {

/// What `str::to_lowercase` makes of a string: its Unicode lowercase
/// equivalent, a function of the characters alone.  It is named rather than
/// written out.
pub uninterp spec fn lower_of(s: Seq<char>) -> Seq<char>;

/// Relies on `str::to_lowercase`: the Unicode lowercase equivalent of a
/// string.  An empty string stays empty.
#[verifier::external_body]
pub(crate) fn lowercase(s: &str) -> (r: String)
    ensures
        r@ == lower_of(s@),
        s@.len() == 0 ==> r@.len() == 0,
{
    s.to_lowercase()
}

/// The words of a text, lowercased.
pub open spec fn lowered_words(s: Seq<char>) -> Seq<Seq<char>> {
    words_of(s).map_values(|w: Seq<char>| lower_of(w))
}

/// The neighbours a term has in a graph: the empty set when the term is not
/// a key.
pub open spec fn graph_adjacent(g: Map<Seq<char>, Set<Seq<char>>>, k: Seq<char>) -> Set<
    Seq<char>,
> {
    if g.contains_key(k) {
        g[k]
    } else {
        Set::empty()
    }
}

/// A graph with one more undirected edge: `b` joins the neighbours of `a`,
/// then `a` joins the neighbours of `b`.
pub open spec fn add_edge(
    g: Map<Seq<char>, Set<Seq<char>>>,
    a: Seq<char>,
    b: Seq<char>,
) -> Map<Seq<char>, Set<Seq<char>>> {
    let g1 = g.insert(a, graph_adjacent(g, a).insert(b));
    g1.insert(b, graph_adjacent(g1, b).insert(a))
}

/// The term graph of a word sequence: one edge per adjacent pair.  Fewer
/// than two words make no edge and an empty graph.
pub open spec fn term_graph_of(ws: Seq<Seq<char>>) -> Map<Seq<char>, Set<Seq<char>>>
    decreases ws.len(),
{
    if ws.len() < 2 {
        Map::empty()
    } else {
        add_edge(term_graph_of(ws.drop_last()), ws[ws.len() - 2], ws[ws.len() - 1])
    }
}

/// The set holding the views of a sequence of strings.
pub open spec fn string_set(v: Seq<Seq<char>>) -> Set<Seq<char>>
    decreases v.len(),
{
    if v.len() == 0 {
        Set::empty()
    } else {
        string_set(v.drop_last()).insert(v.last())
    }
}

pub proof fn lemma_string_set_contains(v: Seq<Seq<char>>, x: Seq<char>)
    ensures
        string_set(v).contains(x) <==> v.contains(x),
    decreases v.len(),
{
    if v.len() > 0 {
        lemma_string_set_contains(v.drop_last(), x);
        if v.contains(x) {
            let i = choose|i: int| 0 <= i < v.len() && v[i] == x;
            if i < v.len() - 1 {
                assert(v.drop_last()[i] == x);
                assert(v.drop_last().contains(x));
            }
        }
        if string_set(v).contains(x) && x != v.last() {
            let i = choose|i: int| 0 <= i < v.drop_last().len() && v.drop_last()[i] == x;
            assert(v[i] == x);
        }
    }
}

/// The term graph, held as an association list with distinct keys.
pub struct TermGraph {
    entries: Vec<(String, Vec<String>)>,
}

/// The map an entry list denotes.
pub closed spec fn entries_map(s: Seq<(String, Vec<String>)>) -> Map<Seq<char>, Set<Seq<char>>>
    decreases s.len(),
{
    if s.len() == 0 {
        Map::empty()
    } else {
        entries_map(s.drop_last()).insert(s.last().0@, string_set(s.last().1.deep_view()))
    }
}

impl View for TermGraph {
    type V = Map<Seq<char>, Set<Seq<char>>>;

    closed spec fn view(&self) -> Map<Seq<char>, Set<Seq<char>>> {
        entries_map(self.entries@)
    }
}

proof fn lemma_entries_map_key(s: Seq<(String, Vec<String>)>, i: int)
    requires
        0 <= i < s.len(),
        forall|p: int, q: int| 0 <= p < q < s.len() ==> s[p].0@ != s[q].0@,
    ensures
        entries_map(s).contains_key(s[i].0@),
        entries_map(s)[s[i].0@] == string_set(s[i].1.deep_view()),
    decreases s.len(),
{
    if i < s.len() - 1 {
        lemma_entries_map_key(s.drop_last(), i);
    }
}

proof fn lemma_entries_map_absent(s: Seq<(String, Vec<String>)>, k: Seq<char>)
    requires
        forall|j: int| 0 <= j < s.len() ==> s[j].0@ != k,
    ensures
        !entries_map(s).contains_key(k),
    decreases s.len(),
{
    if s.len() > 0 {
        lemma_entries_map_absent(s.drop_last(), k);
    }
}

proof fn lemma_entries_map_update(s: Seq<(String, Vec<String>)>, i: int, p: (String, Vec<String>))
    requires
        0 <= i < s.len(),
        forall|p: int, q: int| 0 <= p < q < s.len() ==> s[p].0@ != s[q].0@,
        p.0@ == s[i].0@,
    ensures
        entries_map(s.update(i, p)) == entries_map(s).insert(p.0@, string_set(p.1.deep_view())),
    decreases s.len(),
{
    if i == s.len() - 1 {
        assert(s.update(i, p).drop_last() =~= s.drop_last());
        assert(entries_map(s.update(i, p)) =~= entries_map(s).insert(
            p.0@,
            string_set(p.1.deep_view()),
        ));
    } else {
        assert(s.update(i, p).drop_last() =~= s.drop_last().update(i, p));
        lemma_entries_map_update(s.drop_last(), i, p);
        assert(entries_map(s.update(i, p)) =~= entries_map(s).insert(
            p.0@,
            string_set(p.1.deep_view()),
        ));
    }
}

impl TermGraph {
    /// The graph invariant: every term owns at most one entry.
    pub closed spec fn wf(&self) -> bool {
        forall|p: int, q: int| 0 <= p < q < self.entries@.len() ==> self.entries@[p].0@
            != self.entries@[q].0@
    }

    /// An empty graph.
    pub fn new() -> (g: TermGraph)
        ensures
            g@ == Map::<Seq<char>, Set<Seq<char>>>::empty(),
            g.wf(),
    {
        TermGraph { entries: Vec::new() }
    }

    /// The position of a term's entry, if it has one.
    fn find_entry(&self, key: &String) -> (r: Option<usize>)
        ensures
            match r {
                Some(i) => i < self.entries@.len() && self.entries@[i as int].0@ == key@,
                None => forall|j: int| 0 <= j < self.entries@.len() ==> self.entries@[j].0@
                    != key@,
            },
    {
        let mut j: usize = 0;
        while j < self.entries.len()
            invariant
                j <= self.entries@.len(),
                forall|q: int| 0 <= q < j ==> self.entries@[q].0@ != key@,
            decreases self.entries@.len() - j,
        {
            if self.entries[j].0 == *key {
                return Some(j);
            }
            j += 1;
        }
        None
    }

    /// Records that `to` is a neighbour of `from`.
    fn insert_directed(&mut self, from: &String, to: &String)
        requires
            old(self).wf(),
        ensures
            final(self).wf(),
            final(self)@ == old(self)@.insert(
                from@,
                graph_adjacent(old(self)@, from@).insert(to@),
            ),
    {
        match self.find_entry(from) {
            Some(i) => {
                proof {
                    lemma_entries_map_key(self.entries@, i as int);
                }
                if vec_contains_string(&self.entries[i].1, to) {
                    proof {
                        lemma_string_set_contains(self.entries@[i as int].1.deep_view(), to@);
                        assert(graph_adjacent(self@, from@).insert(to@) =~= graph_adjacent(
                            self@,
                            from@,
                        ));
                        assert(self@.insert(from@, graph_adjacent(self@, from@).insert(to@))
                            =~= self@);
                    }
                } else {
                    let ghost old_entries = self.entries@;
                    self.entries[i].1.push(to.clone());
                    proof {
                        let p = self.entries@[i as int];
                        let prior = old_entries[i as int].1.deep_view();
                        assert(p.1.deep_view().drop_last() =~= prior);
                        assert(p.1.deep_view().last() == to@);
                        assert(string_set(p.1.deep_view()) == string_set(prior).insert(to@));
                        assert(self.entries@ =~= old_entries.update(i as int, p));
                        lemma_entries_map_update(old_entries, i as int, p);
                    }
                }
            },
            None => {
                proof {
                    lemma_entries_map_absent(self.entries@, from@);
                }
                let mut neighbors: Vec<String> = Vec::new();
                neighbors.push(to.clone());
                let ghost old_entries = self.entries@;
                self.entries.push((from.clone(), neighbors));
                proof {
                    let p = self.entries@.last();
                    assert(p.1.deep_view().drop_last() =~= Seq::<Seq<char>>::empty());
                    assert(p.1.deep_view().last() == to@);
                    assert(string_set(Seq::<Seq<char>>::empty()) == Set::<Seq<char>>::empty());
                    assert(string_set(p.1.deep_view()) == Set::<Seq<char>>::empty().insert(to@));
                    assert(self.entries@.drop_last() =~= old_entries);
                }
            },
        }
    }

    /// Records the undirected edge between `a` and `b`.
    pub fn insert_edge(&mut self, a: &String, b: &String)
        requires
            old(self).wf(),
        ensures
            final(self).wf(),
            final(self)@ == add_edge(old(self)@, a@, b@),
    {
        self.insert_directed(a, b);
        self.insert_directed(b, a);
    }

    /// Whether a term has an entry in the graph.
    pub fn contains_term(&self, term: &str) -> (b: bool)
        requires
            self.wf(),
        ensures
            b == self@.contains_key(term@),
    {
        let key = String::from_str(term);
        match self.find_entry(&key) {
            Some(i) => {
                proof {
                    lemma_entries_map_key(self.entries@, i as int);
                }
                true
            },
            None => {
                proof {
                    lemma_entries_map_absent(self.entries@, term@);
                }
                false
            },
        }
    }

    /// Whether the graph has an edge from `a` to `b`.
    pub fn has_edge(&self, a: &str, b: &str) -> (r: bool)
        requires
            self.wf(),
        ensures
            r == graph_adjacent(self@, a@).contains(b@),
    {
        let key = String::from_str(a);
        match self.find_entry(&key) {
            Some(i) => {
                proof {
                    lemma_entries_map_key(self.entries@, i as int);
                    lemma_string_set_contains(self.entries@[i as int].1.deep_view(), b@);
                }
                let target = String::from_str(b);
                vec_contains_string(&self.entries[i].1, &target)
            },
            None => {
                proof {
                    lemma_entries_map_absent(self.entries@, a@);
                }
                false
            },
        }
    }
}

/// Whether some string in the list has this view.
fn vec_contains_string(v: &Vec<String>, x: &String) -> (b: bool)
    ensures
        b == v.deep_view().contains(x@),
{
    let mut j: usize = 0;
    while j < v.len()
        invariant
            j <= v@.len(),
            forall|q: int| 0 <= q < j ==> v.deep_view()[q] != x@,
        decreases v@.len() - j,
    {
        if v[j] == *x {
            proof {
                assert(v.deep_view()[j as int] == x@);
            }
            return true;
        }
        j += 1;
    }
    false
}

/// Builds the term graph of a text: its words are lowercased, and every
/// adjacent pair is joined by an edge in both directions.
pub fn build_term_graph(content: &str) -> (g: TermGraph)
    ensures
        g.wf(),
        g@ == term_graph_of(lowered_words(content@)),
{
    let ws = crate::text::split_words(content);
    let ghost lw = lowered_words(content@);
    let mut low: Vec<String> = Vec::new();
    let mut k: usize = 0;
    while k < ws.len()
        invariant
            ws.deep_view() == words_of(content@),
            ws@.len() == words_of(content@).len(),
            lw == lowered_words(content@),
            k <= ws@.len(),
            low@.len() == k,
            low.deep_view() == lw.subrange(0, k as int),
        decreases ws@.len() - k,
    {
        let w = lowercase(ws[k].as_str());
        low.push(w);
        proof {
            assert(low.deep_view() =~= lw.subrange(0, k as int + 1));
        }
        k += 1;
    }
    proof {
        assert(low.deep_view() =~= lw);
    }
    let mut graph = TermGraph::new();
    if low.len() == 0 {
        return graph;
    }
    let mut i: usize = 1;
    while i < low.len()
        invariant
            low.deep_view() == lw,
            low@.len() == low.deep_view().len(),
            1 <= i <= low@.len(),
            graph.wf(),
            graph@ == term_graph_of(lw.subrange(0, i as int)),
        decreases low@.len() - i,
    {
        graph.insert_edge(&low[i - 1], &low[i]);
        proof {
            assert(lw.subrange(0, i as int + 1).drop_last() =~= lw.subrange(0, i as int));
            assert(graph@ == term_graph_of(lw.subrange(0, i as int + 1)));
        }
        i += 1;
    }
    proof {
        assert(lw.subrange(0, low@.len() as int) =~= lw);
    }
    graph
}

} // verus!
