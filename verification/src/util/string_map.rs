use vstd::prelude::*;

verus! {

/// The map that a list of entries denotes; a later entry for a key replaces
/// an earlier one.
pub open spec fn entries_map<V>(es: Seq<(Seq<char>, V)>) -> Map<Seq<char>, V>
    decreases es.len(),
{
    if es.len() == 0 {
        Map::empty()
    } else {
        entries_map(es.drop_last()).insert(es.last().0, es.last().1)
    }
}

/// No key occurs twice in the entries.
pub open spec fn keys_unique<V>(es: Seq<(Seq<char>, V)>) -> bool {
    forall|i: int, j: int| 0 <= i < j < es.len() ==> #[trigger] es[i].0 != #[trigger] es[j].0
}

/// A map from text keys to values that remembers insertion order.
#[derive(Debug)]
pub struct StringMap<V> {
    entries: Vec<(String, V)>,
}

impl<V> View for StringMap<V> {
    type V = Map<Seq<char>, V>;

    open spec fn view(&self) -> Map<Seq<char>, V> {
        entries_map(self.spec_entries())
    }
}

proof fn lemma_entries_map_lookup<V>(es: Seq<(Seq<char>, V)>)
    requires
        keys_unique(es),
    ensures
        forall|i: int|
            0 <= i < es.len() ==> #[trigger] entries_map(es).contains_key(es[i].0)
                && entries_map(es)[es[i].0] == es[i].1,
        forall|k: Seq<char>|
            #[trigger] entries_map(es).contains_key(k) ==> exists|i: int|
                0 <= i < es.len() && es[i].0 == k,
    decreases es.len(),
{
    if es.len() > 0 {
        let init = es.drop_last();
        assert(keys_unique(init)) by {
            assert forall|i: int, j: int| 0 <= i < j < init.len() implies #[trigger] init[i].0
                != #[trigger] init[j].0 by {
                assert(es[i].0 != es[j].0);
            }
        }
        lemma_entries_map_lookup(init);
        let last = es.last();
        assert(entries_map(es) == entries_map(init).insert(last.0, last.1));
        assert forall|i: int| 0 <= i < es.len() implies #[trigger] entries_map(es).contains_key(
            es[i].0,
        ) && entries_map(es)[es[i].0] == es[i].1 by {
            if i < es.len() - 1 {
                assert(init[i] == es[i]);
                assert(es[i].0 != es[es.len() - 1].0);
                assert(entries_map(init).contains_key(init[i].0));
            }
        }
        assert forall|k: Seq<char>| #[trigger] entries_map(es).contains_key(k) implies exists|
            i: int,
        | 0 <= i < es.len() && es[i].0 == k by {
            if k != last.0 {
                assert(entries_map(init).contains_key(k));
                let i = choose|i: int| 0 <= i < init.len() && init[i].0 == k;
                assert(init[i] == es[i]);
            } else {
                assert(es[es.len() - 1].0 == k);
            }
        }
    }
}

proof fn lemma_entries_map_update<V>(es: Seq<(Seq<char>, V)>, i: int, v: V)
    requires
        keys_unique(es),
        0 <= i < es.len(),
    ensures
        entries_map(es.update(i, (es[i].0, v))) == entries_map(es).insert(es[i].0, v),
    decreases es.len(),
{
    let k = es[i].0;
    let es2 = es.update(i, (k, v));
    let init = es.drop_last();
    if i == es.len() - 1 {
        assert(es2.drop_last() == init);
        assert(entries_map(es2) =~= entries_map(init).insert(k, v));
        assert(entries_map(es).insert(k, v) =~= entries_map(init).insert(k, v));
    } else {
        assert(keys_unique(init)) by {
            assert forall|a: int, b: int| 0 <= a < b < init.len() implies #[trigger] init[a].0
                != #[trigger] init[b].0 by {
                assert(es[a].0 != es[b].0);
            }
        }
        assert(es2.drop_last() == init.update(i, (k, v)));
        lemma_entries_map_update(init, i, v);
        assert(es[i].0 != es.last().0);
        assert(entries_map(es2) =~= entries_map(es).insert(k, v));
    }
}

impl<V> StringMap<V> {
    /// The entries as key texts and values, in insertion order.
    pub closed spec fn spec_entries(&self) -> Seq<(Seq<char>, V)> {
        self.entries@.map_values(|e: (String, V)| (e.0@, e.1))
    }

    #[verifier::type_invariant]
    closed spec fn inv(self) -> bool {
        keys_unique(self.spec_entries())
    }

    /// The empty map.
    pub fn new() -> (m: Self)
        ensures
            m@ == Map::<Seq<char>, V>::empty(),
            m.spec_entries().len() == 0,
    {
        let m = StringMap { entries: Vec::new() };
        assert(m.spec_entries().len() == 0);
        m
    }

    /// Number of keys.
    pub fn len(&self) -> (n: usize)
        ensures
            n == self@.len(),
            n == self.spec_entries().len(),
    {
        proof {
            use_type_invariant(self);
            self.lemma_view_len();
        }
        self.entries.len()
    }

    proof fn lemma_view_len(&self)
        requires
            keys_unique(self.spec_entries()),
        ensures
            self@.len() == self.spec_entries().len(),
            self@.dom().finite(),
    {
        lemma_dom_len(self.spec_entries());
    }

    /// The index of the entry for `key`, if there is one.
    fn find(&self, old_key: &str) -> (r: Option<usize>)
        ensures
            match r {
                Some(i) => i < self.spec_entries().len() && self.spec_entries()[i as int].0
                    == old_key@,
                None => forall|i: int|
                    0 <= i < self.spec_entries().len() ==> self.spec_entries()[i].0 != old_key@,
            },
    {
        let key = old_key.to_owned();
        let mut i: usize = 0;
        while i < self.entries.len()
            invariant
                i <= self.entries.len(),
                key@ == old_key@,
                forall|j: int| 0 <= j < i ==> self.spec_entries()[j].0 != key@,
            decreases self.entries.len() - i,
        {
            assert(self.spec_entries()[i as int] == (self.entries@[i as int].0@, self.entries@[i as int].1));
            if self.entries[i].0 == key {
                return Some(i);
            }
            i = i + 1;
        }
        None
    }

    /// The value stored for `key`.
    pub fn get(&self, key: &str) -> (r: Option<&V>)
        ensures
            match r {
                Some(v) => self@.contains_key(key@) && self@[key@] == *v,
                None => !self@.contains_key(key@),
            },
    {
        proof {
            use_type_invariant(self);
            lemma_entries_map_lookup(self.spec_entries());
        }
        match self.find(key) {
            Some(i) => {
                let ghost ii = i as int;
                assert(self.spec_entries()[ii] == (self.entries@[ii].0@, self.entries@[ii].1));
                assert(self@.contains_key(self.spec_entries()[i as int].0));
                Some(&self.entries[i].1)
            },
            None => None,
        }
    }

    /// Whether a value is stored for `key`.
    pub fn contains_key(&self, key: &str) -> (r: bool)
        ensures
            r == self@.contains_key(key@),
    {
        proof {
            use_type_invariant(self);
            lemma_entries_map_lookup(self.spec_entries());
        }
        self.find(key).is_some()
    }

    /// Stores `value` for `key`, replacing what was stored for it.
    pub fn insert(&mut self, key: String, value: V)
        ensures
            final(self)@ == old(self)@.insert(key@, value),
    {
        proof {
            use_type_invariant(&*self);
        }
        let found = self.find(key.as_str());
        let ghost es = self.spec_entries();
        let mut entries: Vec<(String, V)> = Vec::new();
        std::mem::swap(&mut entries, &mut self.entries);
        assert(entries@.map_values(|e: (String, V)| (e.0@, e.1)) == es);
        match found {
            Some(i) => {
                proof {
                    lemma_entries_map_update(es, i as int, value);
                }
                entries.set(i, (key, value));
                assert(entries@.map_values(|e: (String, V)| (e.0@, e.1)) == es.update(
                    i as int,
                    (es[i as int].0, value),
                ));
                assert(keys_unique(es.update(i as int, (es[i as int].0, value)))) by {
                    let es2 = es.update(i as int, (es[i as int].0, value));
                    assert forall|a: int, b: int| 0 <= a < b < es2.len() implies #[trigger] es2[a].0
                        != #[trigger] es2[b].0 by {
                        assert(es[a].0 != es[b].0);
                    }
                }
            },
            None => {
                entries.push((key, value));
                let ghost es2 = entries@.map_values(|e: (String, V)| (e.0@, e.1));
                assert(es2.drop_last() == es);
                assert(keys_unique(es2)) by {
                    assert forall|a: int, b: int| 0 <= a < b < es2.len() implies #[trigger] es2[a].0
                        != #[trigger] es2[b].0 by {
                        if b < es.len() {
                            assert(es2[a] == es[a]);
                            assert(es2[b] == es[b]);
                        } else {
                            assert(es2[a] == es[a]);
                        }
                    }
                }
            },
        }
        self.entries = entries;
    }

    /// The entry at position `i` in insertion order.
    pub fn entry(&self, i: usize) -> (r: (&String, &V))
        requires
            i < self.spec_entries().len(),
        ensures
            r.0@ == self.spec_entries()[i as int].0,
            *r.1 == self.spec_entries()[i as int].1,
            self@.contains_key(r.0@),
            self@[r.0@] == *r.1,
    {
        proof {
            use_type_invariant(self);
            lemma_entries_map_lookup(self.spec_entries());
        }
        let e = &self.entries[i];
        let ghost ii = i as int;
        assert(self.spec_entries()[ii] == (self.entries@[ii].0@, self.entries@[ii].1));
        assert(self@.contains_key(self.spec_entries()[i as int].0));
        (&e.0, &e.1)
    }
}

impl<V: Clone> Clone for StringMap<V> {
    /// A copy with the same keys in the same order; the values are copied
    /// with their own `clone`.
    fn clone(&self) -> (r: Self)
        ensures
            r.spec_entries().len() == self.spec_entries().len(),
            forall|i: int|
                0 <= i < self.spec_entries().len() ==> (#[trigger] r.spec_entries()[i]).0
                    == self.spec_entries()[i].0,
    {
        proof {
            use_type_invariant(self);
        }
        let mut out: Vec<(String, V)> = Vec::new();
        let mut i: usize = 0;
        while i < self.entries.len()
            invariant
                i <= self.entries@.len(),
                out@.len() == i,
                forall|j: int| 0 <= j < i ==> (#[trigger] out@[j]).0@ == self.entries@[j].0@,
            decreases self.entries.len() - i,
        {
            let k = self.entries[i].0.clone();
            let v = self.entries[i].1.clone();
            out.push((k, v));
            i = i + 1;
        }
        let ghost mine = self.spec_entries();
        let ghost theirs = out@.map_values(|e: (String, V)| (e.0@, e.1));
        assert(forall|j: int| 0 <= j < theirs.len() ==> #[trigger] theirs[j].0 == mine[j].0);
        assert(keys_unique(theirs)) by {
            assert forall|a: int, b: int| 0 <= a < b < theirs.len() implies #[trigger] theirs[a].0
                != #[trigger] theirs[b].0 by {
                assert(theirs[a].0 == mine[a].0 && theirs[b].0 == mine[b].0);
            }
        }
        StringMap { entries: out }
    }
}

proof fn lemma_dom_len<V>(es: Seq<(Seq<char>, V)>)
    requires
        keys_unique(es),
    ensures
        entries_map(es).dom().finite(),
        entries_map(es).len() == es.len(),
    decreases es.len(),
{
    if es.len() > 0 {
        let init = es.drop_last();
        assert(keys_unique(init)) by {
            assert forall|a: int, b: int| 0 <= a < b < init.len() implies #[trigger] init[a].0
                != #[trigger] init[b].0 by {
                assert(es[a].0 != es[b].0);
            }
        }
        lemma_dom_len(init);
        lemma_entries_map_lookup(init);
        if entries_map(init).contains_key(es.last().0) {
            let i = choose|i: int| 0 <= i < init.len() && init[i].0 == es.last().0;
            assert(es[i].0 != es[es.len() - 1].0);
        }
    }
}

/// A read after a write gives back what was written, and leaves the other
/// keys as they were.
pub proof fn lemma_get_after_insert<V>(m: Map<Seq<char>, V>, k: Seq<char>, v: V, other: Seq<char>)
    ensures
        m.insert(k, v).contains_key(k),
        m.insert(k, v)[k] == v,
        other != k ==> (m.insert(k, v).contains_key(other) == m.contains_key(other)),
        other != k && m.contains_key(other) ==> m.insert(k, v)[other] == m[other],
{
}

} // verus!
