//! Environment variables that mark production: a map from name to value,
//! kept in name order (the order in which the editor lists them).
use vstd::prelude::*;
use crate::text::{
    is_sorted_listing, lemma_seq_lt_irreflexive, lemma_seq_lt_total, lemma_seq_lt_transitive,
    lemma_sorted_listing_unique, seq_lt, str_lt,
};

verus! {

/// The names of a map in increasing order.
pub open spec fn name_order(m: Map<Seq<char>, Seq<char>>) -> Seq<Seq<char>> {
    choose|s: Seq<Seq<char>>| is_sorted_listing(s, m.dom())
}

/// Names strictly increasing.
pub open spec fn sorted_names(v: Seq<(String, String)>) -> bool {
    forall|i: int, j: int| 0 <= i < j < v.len() ==> seq_lt(#[trigger] v[i].0@, #[trigger] v[j].0@)
}

pub open spec fn names_of(v: Seq<(String, String)>) -> Seq<Seq<char>> {
    v.map_values(|e: (String, String)| e.0@)
}

/// An index holding name `k`.
pub open spec fn find_name(v: Seq<(String, String)>, k: Seq<char>) -> int {
    choose|i: int| 0 <= i < v.len() && v[i].0@ == k
}

/// The variables, in name order, each name once.
#[derive(Debug)]
pub struct EnvVars {
    entries: Vec<(String, String)>,
}

impl View for EnvVars {
    type V = Map<Seq<char>, Seq<char>>;

    closed spec fn view(&self) -> Map<Seq<char>, Seq<char>> {
        Map::new(
            |k: Seq<char>| exists|i: int| 0 <= i < self.entries@.len() && self.entries@[i].0@ == k,
            |k: Seq<char>| self.entries@[find_name(self.entries@, k)].1@,
        )
    }
}

impl EnvVars {
    #[verifier::type_invariant]
    spec fn inv(self) -> bool {
        sorted_names(self.entries@)
    }

    /// The names in order.
    pub closed spec fn names(&self) -> Seq<Seq<char>> {
        names_of(self.entries@)
    }

    /// The value of the `i`-th name.
    pub closed spec fn value_at(&self, i: int) -> Seq<char> {
        self.entries@[i].1@
    }

    proof fn lemma_unique_index(&self, i: int, j: int)
        requires
            sorted_names(self.entries@),
            0 <= i < self.entries@.len(),
            0 <= j < self.entries@.len(),
            self.entries@[i].0@ == self.entries@[j].0@,
        ensures
            i == j,
    {
        if i < j {
            lemma_seq_lt_irreflexive(self.entries@[i].0@);
        }
        if j < i {
            lemma_seq_lt_irreflexive(self.entries@[i].0@);
        }
    }

    proof fn lemma_names_are_keys(&self)
        requires
            sorted_names(self.entries@),
        ensures
            self.names().len() == self@.dom().len(),
            forall|i: int, j: int|
                0 <= i < j < self.names().len() ==> seq_lt(
                    #[trigger] self.names()[i],
                    #[trigger] self.names()[j],
                ),
            forall|k: Seq<char>| self@.dom().contains(k) <==> self.names().contains(k),
            forall|i: int|
                0 <= i < self.names().len() ==> #[trigger] self@[self.names()[i]]
                    == self.value_at(i),
            self@.dom().finite(),
    {
        let n = self.names();
        assert forall|k: Seq<char>| self@.dom().contains(k) <==> n.contains(k) by {
            if self@.dom().contains(k) {
                let i = choose|i: int| 0 <= i < self.entries@.len() && self.entries@[i].0@ == k;
                assert(n[i] == k);
            }
            if n.contains(k) {
                let i = choose|i: int| 0 <= i < n.len() && n[i] == k;
                assert(self.entries@[i].0@ == k);
            }
        }
        assert forall|i: int| 0 <= i < n.len() implies #[trigger] self@[n[i]] == self.value_at(
            i,
        ) by {
            let k = n[i];
            assert(self.entries@[i].0@ == k);
            assert(self@.dom().contains(k));
            let c = find_name(self.entries@, k);
            assert(0 <= c < self.entries@.len() && self.entries@[c].0@ == k);
            self.lemma_unique_index(i, c);
            assert(self@[k] == self.entries@[c].1@);
        }
        assert forall|i: int, j: int| 0 <= i < j < n.len() implies seq_lt(
            #[trigger] n[i],
            #[trigger] n[j],
        ) by {
            assert(n[i] == self.entries@[i].0@);
            assert(n[j] == self.entries@[j].0@);
        }
        assert(n.no_duplicates()) by {
            assert forall|i: int, j: int| 0 <= i < n.len() && 0 <= j < n.len() && i != j implies n[i]
                != n[j] by {
                if n[i] == n[j] {
                    self.lemma_unique_index(i, j);
                }
            }
        }
        n.unique_seq_to_set();
        assert(self@.dom() =~= n.to_set());
    }

    pub fn new() -> (r: Self)
        ensures
            r@ == Map::<Seq<char>, Seq<char>>::empty(),
            r.names().len() == 0,
    {
        let r = EnvVars { entries: Vec::new() };
        proof {
            assert(r@ =~= Map::<Seq<char>, Seq<char>>::empty());
        }
        r
    }

    /// The number of variables. The names are the map's keys, in
    /// increasing order, each once, each holding its value.
    pub fn len(&self) -> (r: usize)
        ensures
            r == self.names().len(),
            r == self@.dom().len(),
            forall|i: int, j: int|
                0 <= i < j < self.names().len() ==> seq_lt(
                    #[trigger] self.names()[i],
                    #[trigger] self.names()[j],
                ),
            forall|k: Seq<char>| self@.dom().contains(k) <==> self.names().contains(k),
            forall|i: int|
                0 <= i < self.names().len() ==> #[trigger] self@[self.names()[i]]
                    == self.value_at(i),
            self@.dom().finite(),
            self.names() == name_order(self@),
    {
        proof {
            use_type_invariant(self);
            self.lemma_names_are_keys();
            assert(is_sorted_listing(self.names(), self@.dom()));
            let o = name_order(self@);
            assert(is_sorted_listing(o, self@.dom()));
            lemma_sorted_listing_unique(self.names(), o, self@.dom());
        }
        self.entries.len()
    }

    /// The `i`-th variable in name order.
    pub fn entry(&self, i: usize) -> (r: (&str, &str))
        requires
            i < self.names().len(),
        ensures
            r.0@ == self.names()[i as int],
            r.1@ == self.value_at(i as int),
    {
        let e = &self.entries[i];
        (e.0.as_str(), e.1.as_str())
    }

    /// Sets `name` to `value`, replacing any value it had.
    pub fn insert(&mut self, name: String, value: String)
        ensures
            final(self)@ == old(self)@.insert(name@, value@),
    {
        proof {
            use_type_invariant(&*self);
        }
        let n = self.entries.len();
        let mut i: usize = 0;
        while i < n && str_lt(self.entries[i].0.as_str(), name.as_str())
            invariant
                i <= n,
                n == self.entries@.len(),
                sorted_names(self.entries@),
                forall|k: int| 0 <= k < i ==> seq_lt(#[trigger] self.entries@[k].0@, name@),
            decreases n - i,
        {
            i = i + 1;
        }
        let ghost old_entries = self.entries@;
        let ghost old_view = self@;
        if i < n && crate::text::str_eq(self.entries[i].0.as_str(), name.as_str()) {
            let mut entries = Vec::new();
            std::mem::swap(&mut entries, &mut self.entries);
            entries.set(i, (name, value));
            proof {
                assert forall|a: int, b: int| 0 <= a < b < entries@.len() implies seq_lt(
                    #[trigger] entries@[a].0@,
                    #[trigger] entries@[b].0@,
                ) by {
                    assert(entries@[a].0@ == old_entries[a].0@);
                    assert(entries@[b].0@ == old_entries[b].0@);
                }
            }
            self.entries = entries;
        } else {
            proof {
                if i < n {
                    lemma_seq_lt_total(old_entries[i as int].0@, name@);
                }
            }
            let mut entries = Vec::new();
            std::mem::swap(&mut entries, &mut self.entries);
            entries.insert(i, (name, value));
            proof {
                assert forall|a: int, b: int| 0 <= a < b < entries@.len() implies seq_lt(
                    #[trigger] entries@[a].0@,
                    #[trigger] entries@[b].0@,
                ) by {
                    if b < i {
                        assert(entries@[a] == old_entries[a]);
                        assert(entries@[b] == old_entries[b]);
                    } else if b == i {
                        assert(entries@[a] == old_entries[a]);
                    } else if a == i {
                        assert(entries@[b] == old_entries[b - 1]);
                        if b - 1 > i {
                            lemma_seq_lt_transitive(name@, old_entries[i as int].0@, old_entries[b - 1].0@);
                        }
                    } else if a < i {
                        assert(entries@[a] == old_entries[a]);
                        assert(entries@[b] == old_entries[b - 1]);
                    } else {
                        assert(entries@[a] == old_entries[a - 1]);
                        assert(entries@[b] == old_entries[b - 1]);
                    }
                }
            }
            self.entries = entries;
        }
        proof {
            let nv = self@;
            let target = old_view.insert(name@, value@);
            assert forall|k: Seq<char>| nv.dom().contains(k) <==> target.dom().contains(k) by {
                if nv.dom().contains(k) {
                    let q = choose|q: int| 0 <= q < self.entries@.len() && self.entries@[q].0@ == k;
                    if k != name@ {
                        if old_entries.len() == self.entries@.len() {
                            assert(old_entries[q].0@ == k);
                        } else if q < i {
                            assert(old_entries[q].0@ == k);
                        } else {
                            assert(old_entries[q - 1].0@ == k);
                        }
                    }
                }
                if old_view.dom().contains(k) && k != name@ {
                    let q = choose|q: int| 0 <= q < old_entries.len() && old_entries[q].0@ == k;
                    if old_entries.len() == self.entries@.len() {
                        assert(self.entries@[q].0@ == k);
                    } else if q < i {
                        assert(self.entries@[q].0@ == k);
                    } else {
                        assert(self.entries@[q + 1].0@ == k);
                    }
                }
                if k == name@ {
                    assert(self.entries@[i as int].0@ == k);
                }
            }
            assert forall|k: Seq<char>| nv.dom().contains(k) implies nv[k] == target[k] by {
                let q = find_name(self.entries@, k);
                if k == name@ {
                    assert(self.entries@[i as int].0@ == k);
                    self.lemma_unique_index(q, i as int);
                } else {
                    assert(old_view.dom().contains(k)) by {
                        if q < i || old_entries.len() == self.entries@.len() {
                            assert(old_entries[q].0@ == k);
                        } else {
                            assert(old_entries[q - 1].0@ == k);
                        }
                    }
                    let p = find_name(old_entries, k);
                    if old_entries.len() == self.entries@.len() {
                        assert(self.entries@[p].0@ == k);
                        self.lemma_unique_index(q, p);
                    } else if p < i {
                        assert(self.entries@[p].0@ == k);
                        self.lemma_unique_index(q, p);
                    } else {
                        assert(self.entries@[p + 1].0@ == k);
                        self.lemma_unique_index(q, p + 1);
                    }
                }
            }
            assert(nv =~= target);
        }
    }

    /// Removes the `i`-th variable in name order.
    pub fn remove_at(&mut self, i: usize)
        requires
            i < old(self).names().len(),
        ensures
            final(self)@ == old(self)@.remove(old(self).names()[i as int]),
            final(self).names() == old(self).names().remove(i as int),
    {
        proof {
            use_type_invariant(&*self);
        }
        let ghost old_entries = self.entries@;
        let ghost old_view = self@;
        let ghost gone = old_entries[i as int].0@;
        let mut entries = Vec::new();
        std::mem::swap(&mut entries, &mut self.entries);
        let _ = entries.remove(i);
        proof {
            assert forall|a: int, b: int| 0 <= a < b < entries@.len() implies seq_lt(
                #[trigger] entries@[a].0@,
                #[trigger] entries@[b].0@,
            ) by {
                if a < i {
                    assert(entries@[a] == old_entries[a]);
                } else {
                    assert(entries@[a] == old_entries[a + 1]);
                }
                if b < i {
                    assert(entries@[b] == old_entries[b]);
                } else {
                    assert(entries@[b] == old_entries[b + 1]);
                }
            }
        }
        self.entries = entries;
        proof {
            let nv = self@;
            let target = old_view.remove(gone);
            assert forall|k: Seq<char>| nv.dom().contains(k) <==> target.dom().contains(k) by {
                if nv.dom().contains(k) {
                    let q = choose|q: int| 0 <= q < self.entries@.len() && self.entries@[q].0@ == k;
                    let p = if q < i {
                        q
                    } else {
                        q + 1
                    };
                    assert(old_entries[p].0@ == k);
                    if k == gone {
                        if p < i {
                            lemma_seq_lt_irreflexive(k);
                        } else {
                            lemma_seq_lt_irreflexive(k);
                        }
                    }
                }
                if target.dom().contains(k) {
                    let p = choose|p: int| 0 <= p < old_entries.len() && old_entries[p].0@ == k;
                    if p < i {
                        assert(self.entries@[p].0@ == k);
                    } else if p > i {
                        assert(self.entries@[p - 1].0@ == k);
                    }
                }
            }
            assert forall|k: Seq<char>| nv.dom().contains(k) implies nv[k] == target[k] by {
                let q = find_name(self.entries@, k);
                let pq0 = if q < i {
                    q
                } else {
                    q + 1
                };
                assert(old_entries[pq0].0@ == k);
                assert(old_view.dom().contains(k));
                let p = find_name(old_entries, k);
                let pq = if q < i {
                    q
                } else {
                    q + 1
                };
                assert(old_entries[pq].0@ == k);
                if p != pq {
                    if p < pq {
                        lemma_seq_lt_irreflexive(k);
                    } else {
                        lemma_seq_lt_irreflexive(k);
                    }
                }
            }
            assert(nv =~= target);
            assert(names_of(self.entries@) =~= names_of(old_entries).remove(i as int));
        }
    }
}

} // verus!
