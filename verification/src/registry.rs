//! A table of metrics of one kind, found by name.

use vstd::prelude::*;

verus! {

/// One named metric: its name, the label names it was made with (none for a
/// plain metric), and the handle.
pub struct Entry<M> {
    pub name: String,
    pub labels: Vec<String>,
    pub metric: M,
}

/// Metrics of one kind by name. Seen from outside it is a map from a name to
/// the label names and the handle registered under it.
pub struct Registry<M> {
    entries: Vec<Entry<M>>,
}

impl<M> Registry<M> {
    /// No name stands in two entries.
    #[verifier::type_invariant]
    spec fn wf(self) -> bool {
        forall|i: int, j: int|
            0 <= i < j < self.entries.len() ==> self.entries[i].name@ != self.entries[j].name@
    }

    spec fn named_at(&self, i: int, k: Seq<char>) -> bool {
        0 <= i < self.entries.len() && self.entries[i].name@ == k
    }

    proof fn lemma_entry_in_view(&self, i: int)
        requires
            self.wf(),
            0 <= i < self.entries.len(),
        ensures
            self@.contains_key(self.entries[i].name@),
            self@[self.entries[i].name@] == (
                self.entries[i].labels.deep_view(),
                self.entries[i].metric,
            ),
    {
        let k = self.entries[i].name@;
        assert(self.named_at(i, k));
        let j = choose|j: int| self.named_at(j, k);
        assert(self.named_at(j, k));
        assert(j == i) by {
            if j < i {
                assert(self.entries[j].name@ != self.entries[i].name@);
            } else if i < j {
                assert(self.entries[i].name@ != self.entries[j].name@);
            }
        }
    }

    /// A table with no metric.
    pub fn new() -> (r: Self)
        ensures
            r@ == Map::<Seq<char>, (Seq<Seq<char>>, M)>::empty(),
    {
        let r = Registry { entries: Vec::new() };
        assert(r@ =~= Map::<Seq<char>, (Seq<Seq<char>>, M)>::empty());
        r
    }

    fn position(&self, name: &String) -> (r: Option<usize>)
        ensures
            match r {
                Some(i) => self.named_at(i as int, name@),
                None => !self@.contains_key(name@),
            },
    {
        let n = self.entries.len();
        let mut i: usize = 0;
        while i < n
            invariant
                n == self.entries.len(),
                i <= n,
                forall|j: int| 0 <= j < i ==> self.entries[j].name@ != name@,
            decreases n - i,
        {
            if self.entries[i].name == *name {
                return Some(i);
            }
            i = i + 1;
        }
        proof {
            if self@.contains_key(name@) {
                let j = choose|j: int| self.named_at(j, name@);
                assert(self.named_at(j, name@));
            }
        }
        None
    }

    /// The entry registered under `name`, if any.
    pub fn get(&self, name: &String) -> (r: Option<&Entry<M>>)
        ensures
            match r {
                Some(e) => {
                    &&& self@.contains_key(name@)
                    &&& e.name@ == name@
                    &&& self@[name@] == (e.labels.deep_view(), e.metric)
                },
                None => !self@.contains_key(name@),
            },
    {
        proof {
            use_type_invariant(self);
        }
        match self.position(name) {
            Some(i) => {
                proof {
                    self.lemma_entry_in_view(i as int);
                }
                Some(&self.entries[i])
            },
            None => None,
        }
    }

    /// A table `new` got from `old` by writing entry `p`, named `key`: in
    /// place of the one entry of `old` so named, or added where there was
    /// none. Its view is that of `old` with `key` mapped to the new entry.
    proof fn lemma_view_after_write(
        old_table: &Self,
        new_table: &Self,
        p: int,
        key: Seq<char>,
        val: (Seq<Seq<char>>, M),
    )
        requires
            old_table.wf(),
            new_table.wf(),
            0 <= p < new_table.entries.len(),
            new_table.entries[p].name@ == key,
            val == (new_table.entries[p].labels.deep_view(), new_table.entries[p].metric),
            forall|j: int|
                0 <= j < new_table.entries.len() && j != p ==> j < old_table.entries.len()
                    && new_table.entries[j] == old_table.entries[j],
            old_table.entries.len() <= new_table.entries.len(),
            forall|j: int|
                0 <= j < old_table.entries.len() ==> (old_table.entries[j].name@ == key <==> j
                    == p),
        ensures
            new_table@ == old_table@.insert(key, val),
    {
        assert forall|k: Seq<char>| #[trigger]
            new_table@.contains_key(k) == old_table@.insert(key, val).contains_key(k) by {
            if k != key {
                if new_table@.contains_key(k) {
                    let j = choose|j: int| new_table.named_at(j, k);
                    assert(old_table.named_at(j, k));
                }
                if old_table@.contains_key(k) {
                    let j = choose|j: int| old_table.named_at(j, k);
                    assert(new_table.named_at(j, k));
                }
            } else {
                assert(new_table.named_at(p, k));
            }
        }
        assert forall|k: Seq<char>| #[trigger]
            new_table@.contains_key(k) implies new_table@[k] == old_table@.insert(key, val)[k] by {
            if k != key {
                let j = choose|j: int| new_table.named_at(j, k);
                assert(new_table.named_at(j, k));
                new_table.lemma_entry_in_view(j);
                old_table.lemma_entry_in_view(j);
            } else {
                new_table.lemma_entry_in_view(p);
            }
        }
        assert(new_table@ =~= old_table@.insert(key, val));
    }

    /// Registers `metric` under `name`, in place of what was there.
    pub fn insert(&mut self, name: String, labels: Vec<String>, metric: M)
        ensures
            final(self)@ == old(self)@.insert(name@, (labels.deep_view(), metric)),
    {
        proof {
            use_type_invariant(&*self);
        }
        let ghost old_self = *self;
        let ghost key = name@;
        let ghost val = (labels.deep_view(), metric);
        let found = self.position(&name);
        let mut entries: Vec<Entry<M>> = Vec::new();
        std::mem::swap(&mut entries, &mut self.entries);
        let ghost p: int;
        match found {
            Some(i) => {
                entries.set(i, Entry { name, labels, metric });
                proof {
                    p = i as int;
                    assert forall|j: int| 0 <= j < old_self.entries.len() implies (
                    old_self.entries[j].name@ == key <==> j == p) by {
                        if j != p && old_self.entries[j].name@ == key {
                            assert(old_self.entries[j].name@ == old_self.entries[p].name@);
                        }
                    }
                }
            },
            None => {
                entries.push(Entry { name, labels, metric });
                proof {
                    p = old_self.entries.len() as int;
                    assert forall|j: int| 0 <= j < old_self.entries.len() implies (
                    old_self.entries[j].name@ == key <==> j == p) by {
                        if old_self.entries[j].name@ == key {
                            assert(old_self.named_at(j, key));
                        }
                    }
                }
            },
        }
        assert forall|a: int, b: int| 0 <= a < b < entries.len() implies entries[a].name@
            != entries[b].name@ by {
            if a != p && b != p {
                assert(old_self.entries[a] == entries[a]);
                assert(old_self.entries[b] == entries[b]);
            } else if a == p {
                assert(old_self.entries[b] == entries[b]);
            } else {
                assert(old_self.entries[a] == entries[a]);
            }
        }
        self.entries = entries;
        proof {
            Self::lemma_view_after_write(&old_self, self, p, key, val);
        }
    }
}

impl<M> View for Registry<M> {
    type V = Map<Seq<char>, (Seq<Seq<char>>, M)>;

    closed spec fn view(&self) -> Map<Seq<char>, (Seq<Seq<char>>, M)> {
        Map::new(
            |k: Seq<char>| exists|i: int| self.named_at(i, k),
            |k: Seq<char>|
                {
                    let i = choose|i: int| self.named_at(i, k);
                    (self.entries[i].labels.deep_view(), self.entries[i].metric)
                },
        )
    }
}

} // verus!
