//! The fields of the unified authentication login form.

use vstd::prelude::*;
use crate::text::{chars_eq, chars_of};

verus! {

/// Form fields by name, each name once, in the order they were first set.
pub struct FormContext {
    entries: Vec<(String, String)>,
}

pub open spec fn pairs_view(v: Seq<(String, String)>) -> Seq<(Seq<char>, Seq<char>)> {
    v.map_values(|p: (String, String)| (p.0@, p.1@))
}

/// The map that the pairs `p` denote, later pairs winning.
pub open spec fn pairs_map(p: Seq<(Seq<char>, Seq<char>)>) -> Map<Seq<char>, Seq<char>>
    decreases p.len(),
{
    if p.len() == 0 {
        Map::empty()
    } else {
        pairs_map(p.drop_last()).insert(p.last().0, p.last().1)
    }
}

/// Whether no name occurs twice among the pairs `p`.
pub open spec fn distinct_names(p: Seq<(Seq<char>, Seq<char>)>) -> bool {
    forall|i: int, j: int| 0 <= i < j < p.len() ==> #[trigger] p[i].0 != #[trigger] p[j].0
}

impl View for FormContext {
    type V = Map<Seq<char>, Seq<char>>;

    closed spec fn view(&self) -> Map<Seq<char>, Seq<char>> {
        pairs_map(pairs_view(self.entries@))
    }
}

proof fn lemma_pairs_map_dom(p: Seq<(Seq<char>, Seq<char>)>, k: Seq<char>)
    ensures
        pairs_map(p).contains_key(k) <==> exists|i: int| 0 <= i < p.len() && #[trigger] p[i].0 == k,
    decreases p.len(),
{
    if p.len() > 0 {
        lemma_pairs_map_dom(p.drop_last(), k);
        if pairs_map(p.drop_last()).contains_key(k) {
            let i = choose|i: int| 0 <= i < p.drop_last().len() && #[trigger] p.drop_last()[i].0 == k;
            assert(p[i].0 == k);
        }
        if exists|i: int| 0 <= i < p.len() && #[trigger] p[i].0 == k {
            let i = choose|i: int| 0 <= i < p.len() && #[trigger] p[i].0 == k;
            if i < p.len() - 1 {
                assert(p.drop_last()[i].0 == k);
            }
        }
    }
}

proof fn lemma_pairs_map_at(p: Seq<(Seq<char>, Seq<char>)>, i: int)
    requires
        distinct_names(p),
        0 <= i < p.len(),
    ensures
        pairs_map(p).contains_key(p[i].0),
        pairs_map(p)[p[i].0] == p[i].1,
    decreases p.len(),
{
    if i < p.len() - 1 {
        let q = p.drop_last();
        assert(q[i] == p[i]);
        assert(distinct_names(q)) by {
            assert forall|a: int, b: int| 0 <= a < b < q.len() implies #[trigger] q[a].0 != #[trigger] q[b].0 by {
                assert(q[a] == p[a] && q[b] == p[b]);
            }
        }
        lemma_pairs_map_at(q, i);
        assert(p.last().0 != p[i].0);
    }
}

proof fn lemma_pairs_map_update(p: Seq<(Seq<char>, Seq<char>)>, i: int, v: Seq<char>)
    requires
        distinct_names(p),
        0 <= i < p.len(),
    ensures
        distinct_names(p.update(i, (p[i].0, v))),
        pairs_map(p.update(i, (p[i].0, v))) == pairs_map(p).insert(p[i].0, v),
{
    let q = p.update(i, (p[i].0, v));
    assert(distinct_names(q)) by {
        assert forall|a: int, b: int| 0 <= a < b < q.len() implies #[trigger] q[a].0 != #[trigger] q[b].0 by {
            assert(q[a].0 == p[a].0 && q[b].0 == p[b].0);
        }
    }
    assert forall|k: Seq<char>| #[trigger] pairs_map(q).contains_key(k) == pairs_map(p).insert(p[i].0, v).contains_key(k) by {
        lemma_pairs_map_dom(q, k);
        lemma_pairs_map_dom(p, k);
        if exists|j: int| 0 <= j < p.len() && #[trigger] p[j].0 == k {
            let j = choose|j: int| 0 <= j < p.len() && #[trigger] p[j].0 == k;
            assert(q[j].0 == k);
        }
        if exists|j: int| 0 <= j < q.len() && #[trigger] q[j].0 == k {
            let j = choose|j: int| 0 <= j < q.len() && #[trigger] q[j].0 == k;
            assert(p[j].0 == k);
        }
    }
    assert forall|k: Seq<char>| #[trigger] pairs_map(q).contains_key(k) implies pairs_map(q)[k] == pairs_map(p).insert(p[i].0, v)[k] by {
        lemma_pairs_map_dom(q, k);
        let j = choose|j: int| 0 <= j < q.len() && #[trigger] q[j].0 == k;
        lemma_pairs_map_at(q, j);
        if j != i {
            lemma_pairs_map_at(p, j);
            assert(p[j].0 != p[i].0);
        }
    }
    assert(pairs_map(q) =~= pairs_map(p).insert(p[i].0, v));
}

proof fn lemma_pairs_map_remove(p: Seq<(Seq<char>, Seq<char>)>, i: int)
    requires
        distinct_names(p),
        0 <= i < p.len(),
    ensures
        distinct_names(p.remove(i)),
        pairs_map(p.remove(i)) == pairs_map(p).remove(p[i].0),
{
    let q = p.remove(i);
    assert(distinct_names(q)) by {
        assert forall|a: int, b: int| 0 <= a < b < q.len() implies #[trigger] q[a].0 != #[trigger] q[b].0 by {
            let a2 = if a < i { a } else { a + 1 };
            let b2 = if b < i { b } else { b + 1 };
            assert(q[a] == p[a2] && q[b] == p[b2]);
        }
    }
    assert forall|k: Seq<char>| #[trigger] pairs_map(q).contains_key(k) == pairs_map(p).remove(p[i].0).contains_key(k) by {
        lemma_pairs_map_dom(q, k);
        lemma_pairs_map_dom(p, k);
        if exists|j: int| 0 <= j < p.len() && #[trigger] p[j].0 == k {
            let j = choose|j: int| 0 <= j < p.len() && #[trigger] p[j].0 == k;
            if j < i {
                assert(q[j].0 == k);
            } else if j > i {
                assert(q[j - 1].0 == k);
            }
        }
        if exists|j: int| 0 <= j < q.len() && #[trigger] q[j].0 == k {
            let j = choose|j: int| 0 <= j < q.len() && #[trigger] q[j].0 == k;
            let j2 = if j < i { j } else { j + 1 };
            assert(p[j2].0 == k);
        }
    }
    assert forall|k: Seq<char>| #[trigger] pairs_map(q).contains_key(k) implies pairs_map(q)[k] == pairs_map(p).remove(p[i].0)[k] by {
        lemma_pairs_map_dom(q, k);
        let j = choose|j: int| 0 <= j < q.len() && #[trigger] q[j].0 == k;
        lemma_pairs_map_at(q, j);
        let j2 = if j < i { j } else { j + 1 };
        assert(p[j2] == q[j]);
        lemma_pairs_map_at(p, j2);
    }
    assert(pairs_map(q) =~= pairs_map(p).remove(p[i].0));
}

proof fn lemma_pairs_map_push(p: Seq<(Seq<char>, Seq<char>)>, k: Seq<char>, v: Seq<char>)
    requires
        distinct_names(p),
        !pairs_map(p).contains_key(k),
    ensures
        distinct_names(p.push((k, v))),
        pairs_map(p.push((k, v))) == pairs_map(p).insert(k, v),
{
    let q = p.push((k, v));
    assert(q.drop_last() == p);
    assert(distinct_names(q)) by {
        assert forall|a: int, b: int| 0 <= a < b < q.len() implies #[trigger] q[a].0 != #[trigger] q[b].0 by {
            if b == q.len() - 1 {
                lemma_pairs_map_dom(p, k);
                assert(p[a].0 == q[a].0);
            } else {
                assert(q[a] == p[a] && q[b] == p[b]);
            }
        }
    }
}

impl FormContext {
    /// The context's invariant: no name is set twice.
    pub closed spec fn wf(&self) -> bool {
        distinct_names(pairs_view(self.entries@))
    }

    /// An empty context.
    pub fn new() -> (r: FormContext)
        ensures
            r.wf(),
            r@ == Map::<Seq<char>, Seq<char>>::empty(),
    {
        let r = FormContext { entries: Vec::new() };
        assert(pairs_view(r.entries@) == Seq::<(Seq<char>, Seq<char>)>::empty());
        r
    }

    /// The position of the field named `name`.
    fn position(&self, name: &str) -> (r: Option<usize>)
        ensures
            r matches Some(i) ==> i < self.entries@.len() && pairs_view(self.entries@)[i as int].0 == name@,
            r is None ==> forall|i: int| 0 <= i < self.entries@.len() ==> #[trigger] pairs_view(self.entries@)[i].0 != name@,
    {
        let n = chars_of(name);
        let mut i: usize = 0;
        while i < self.entries.len()
            invariant
                i <= self.entries@.len(),
                n@ == name@,
                forall|j: int| 0 <= j < i ==> #[trigger] pairs_view(self.entries@)[j].0 != name@,
            decreases self.entries@.len() - i,
        {
            let k = chars_of(self.entries[i].0.as_str());
            assert(pairs_view(self.entries@)[i as int].0 == self.entries@[i as int].0@);
            if chars_eq(k.as_slice(), n.as_slice()) {
                return Some(i);
            }
            i += 1;
        }
        None
    }

    /// The value of the field named `name`.
    pub fn get(&self, name: &str) -> (r: Option<String>)
        requires
            self.wf(),
        ensures
            r matches Some(v) ==> self@.contains_key(name@) && self@[name@] == v@,
            r is None ==> !self@.contains_key(name@),
    {
        proof {
            lemma_pairs_map_dom(pairs_view(self.entries@), name@);
        }
        match self.position(name) {
            Some(i) => {
                proof {
                    lemma_pairs_map_at(pairs_view(self.entries@), i as int);
                }
                Some(self.entries[i].1.clone())
            },
            None => None,
        }
    }

    /// Sets the field named `name` to `value`.
    pub fn insert(&mut self, name: String, value: String)
        requires
            old(self).wf(),
        ensures
            final(self).wf(),
            final(self)@ == old(self)@.insert(name@, value@),
    {
        proof {
            lemma_pairs_map_dom(pairs_view(self.entries@), name@);
        }
        match self.position(name.as_str()) {
            Some(i) => {
                let ghost p = pairs_view(self.entries@);
                proof {
                    lemma_pairs_map_update(p, i as int, value@);
                }
                self.entries.set(i, (name, value));
                assert(pairs_view(self.entries@) =~= p.update(i as int, (p[i as int].0, value@)));
            },
            None => {
                let ghost p = pairs_view(self.entries@);
                proof {
                    lemma_pairs_map_push(p, name@, value@);
                }
                self.entries.push((name, value));
                assert(pairs_view(self.entries@) =~= p.push((name@, value@)));
            },
        }
    }

    /// Removes the field named `name`, giving back its value.
    pub fn remove(&mut self, name: &str) -> (r: Option<String>)
        requires
            old(self).wf(),
        ensures
            final(self).wf(),
            final(self)@ == old(self)@.remove(name@),
            r matches Some(v) ==> old(self)@.contains_key(name@) && old(self)@[name@] == v@,
            r is None ==> !old(self)@.contains_key(name@),
    {
        proof {
            lemma_pairs_map_dom(pairs_view(self.entries@), name@);
        }
        match self.position(name) {
            Some(i) => {
                let ghost p = pairs_view(self.entries@);
                proof {
                    lemma_pairs_map_at(p, i as int);
                    lemma_pairs_map_remove(p, i as int);
                }
                let (_, value) = self.entries.remove(i);
                assert(pairs_view(self.entries@) =~= p.remove(i as int));
                Some(value)
            },
            None => {
                assert(self@.remove(name@) =~= self@);
                None
            },
        }
    }

    /// The fields as name and value pairs, each name once.
    pub fn entries(&self) -> (r: &Vec<(String, String)>)
        requires
            self.wf(),
        ensures
            distinct_names(pairs_view(r@)),
            pairs_map(pairs_view(r@)) == self@,
    {
        &self.entries
    }
}

} // verus!
