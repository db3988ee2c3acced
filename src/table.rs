//! A small table keyed by text, at most one entry per key, where storing under
//! a key that is present replaces its entry.
//!
//! It is a `Vec` of entries proved against a `Map` view rather than a
//! `HashMap<String, _>`: vstd states what `HashMap`'s `insert`, `get` and
//! `contains_key` do only for key types it knows to obey its key model
//! (integers, `bool`, boxes of those), which `String` is not, so none of
//! those calls would tell a proof anything about a `String`-keyed map.

use vstd::prelude::*;

verus! {

/// Entries in insertion order, with the map they stand for.
pub struct KeyedTable<V> {
    entries: Vec<(String, V)>,
    model: Ghost<Map<Seq<char>, V>>,
}

impl<V> View for KeyedTable<V> {
    type V = Map<Seq<char>, V>;

    closed spec fn view(&self) -> Map<Seq<char>, V> {
        self.model@
    }
}

impl<V> KeyedTable<V> {
    /// The stored entries are exactly the model's, one per key.
    pub closed spec fn wf(&self) -> bool {
        &&& forall|i: int| #![trigger self.entries@[i]]
            0 <= i < self.entries@.len() ==> self.model@.contains_key(self.entries@[i].0@)
                && self.model@[self.entries@[i].0@] == self.entries@[i].1
        &&& forall|k: Seq<char>| #![trigger self.model@.contains_key(k)]
            self.model@.contains_key(k) ==> exists|i: int| #![trigger self.entries@[i]]
                0 <= i < self.entries@.len() && self.entries@[i].0@ == k
        &&& forall|i: int, j: int| #![trigger self.entries@[i], self.entries@[j]]
            0 <= i < self.entries@.len() && 0 <= j < self.entries@.len() && i != j
                ==> self.entries@[i].0@ != self.entries@[j].0@
    }

    /// An empty table.
    pub fn new() -> (r: KeyedTable<V>)
        ensures
            r.wf(),
            r@ == Map::<Seq<char>, V>::empty(),
    {
        KeyedTable { entries: Vec::new(), model: Ghost(Map::empty()) }
    }

    /// The position of the entry under `key`, if there is one.
    fn position(&self, key: &String) -> (r: Option<usize>)
        requires
            self.wf(),
        ensures
            match r {
                Some(i) => i < self.entries@.len() && self.entries@[i as int].0@ == key@,
                None => !self@.contains_key(key@),
            },
    {
        let mut i: usize = 0;
        while i < self.entries.len()
            invariant
                self.wf(),
                i <= self.entries@.len(),
                forall|j: int| 0 <= j < i ==> (#[trigger] self.entries@[j]).0@ != key@,
            decreases self.entries@.len() - i,
        {
            if self.entries[i].0 == *key {
                return Some(i);
            }
            i = i + 1;
        }
        proof {
            if self.model@.contains_key(key@) {
                let j = choose|j: int| #![trigger self.entries@[j]]
                    0 <= j < self.entries@.len() && self.entries@[j].0@ == key@;
                assert(self.entries@[j].0@ != key@);
            }
        }
        None
    }

    /// Stores `value` under `key`, replacing what was stored there, and hands
    /// back the stored value.
    pub fn upsert(&mut self, key: String, value: V) -> (r: &V)
        requires
            old(self).wf(),
        ensures
            final(self).wf(),
            final(self)@ == old(self)@.insert(key@, value),
            *r == value,
    {
        let ghost k = key@;
        let ghost v = value;
        let i = match self.position(&key) {
            Some(i) => {
                self.entries.set(i, (key, value));
                i
            },
            None => {
                self.entries.push((key, value));
                self.entries.len() - 1
            },
        };
        self.model = Ghost(self.model@.insert(k, v));
        assert forall|j: int| #![trigger self.entries@[j]]
            0 <= j < self.entries@.len() implies self.model@.contains_key(self.entries@[j].0@)
                && self.model@[self.entries@[j].0@] == self.entries@[j].1 by {
            if j != i {
                assert(old(self).entries@[j] == self.entries@[j]);
            }
        }
        assert forall|k2: Seq<char>| #![trigger self.model@.contains_key(k2)]
            self.model@.contains_key(k2) implies exists|j: int| #![trigger self.entries@[j]]
                0 <= j < self.entries@.len() && self.entries@[j].0@ == k2 by {
            if k2 != k {
                assert(old(self).model@.contains_key(k2));
                let j = choose|j: int| #![trigger old(self).entries@[j]]
                    0 <= j < old(self).entries@.len() && old(self).entries@[j].0@ == k2;
                assert(self.entries@[j] == old(self).entries@[j]);
            } else {
                assert(self.entries@[i as int].0@ == k2);
            }
        }
        assert forall|a: int, b: int| #![trigger self.entries@[a], self.entries@[b]]
            0 <= a < self.entries@.len() && 0 <= b < self.entries@.len() && a != b
                implies self.entries@[a].0@ != self.entries@[b].0@ by {
            if a != i && b != i {
                assert(old(self).entries@[a] == self.entries@[a]);
                assert(old(self).entries@[b] == self.entries@[b]);
            } else if a != i {
                assert(old(self).entries@[a] == self.entries@[a]);
                assert(old(self).model@.contains_key(old(self).entries@[a].0@));
            } else {
                assert(old(self).entries@[b] == self.entries@[b]);
                assert(old(self).model@.contains_key(old(self).entries@[b].0@));
            }
        }
        &self.entries[i].1
    }

    /// The value stored under `key`, or `None` where there is none.
    pub fn get(&self, key: &str) -> (r: Option<&V>)
        requires
            self.wf(),
        ensures
            match r {
                Some(v) => self@.contains_key(key@) && *v == self@[key@],
                None => !self@.contains_key(key@),
            },
    {
        let k = key.to_string();
        match self.position(&k) {
            Some(i) => Some(&self.entries[i].1),
            None => None,
        }
    }

    /// Every key, each once.
    pub fn keys(&self) -> (r: Vec<String>)
        requires
            self.wf(),
        ensures
            forall|k: Seq<char>|
                self@.contains_key(k) <==> exists|i: int| 0 <= i < r@.len() && #[trigger] r@[i]@ == k,
            forall|i: int, j: int|
                0 <= i < r@.len() && 0 <= j < r@.len() && i != j ==> #[trigger] r@[i]@
                    != #[trigger] r@[j]@,
    {
        let mut out: Vec<String> = Vec::new();
        let mut i: usize = 0;
        while i < self.entries.len()
            invariant
                self.wf(),
                i <= self.entries@.len(),
                out@.len() == i,
                forall|j: int| 0 <= j < i ==> #[trigger] out@[j]@ == self.entries@[j].0@,
            decreases self.entries@.len() - i,
        {
            out.push(self.entries[i].0.clone());
            i = i + 1;
        }
        assert forall|k: Seq<char>| self@.contains_key(k) implies exists|j: int|
            0 <= j < out@.len() && #[trigger] out@[j]@ == k by {
            assert(self.model@.contains_key(k));
            let j = choose|j: int| #![trigger self.entries@[j]]
                0 <= j < self.entries@.len() && self.entries@[j].0@ == k;
            assert(out@[j]@ == self.entries@[j].0@);
        }
        assert forall|k: Seq<char>| (exists|j: int| 0 <= j < out@.len() && #[trigger] out@[j]@ == k)
            implies self@.contains_key(k) by {
            let j = choose|j: int| 0 <= j < out@.len() && #[trigger] out@[j]@ == k;
            assert(out@[j]@ == self.entries@[j].0@);
        }
        assert forall|a: int, b: int|
            0 <= a < out@.len() && 0 <= b < out@.len() && a != b implies #[trigger] out@[a]@
                != #[trigger] out@[b]@ by {
            assert(out@[a]@ == self.entries@[a].0@);
            assert(out@[b]@ == self.entries@[b].0@);
        }
        out
    }
}

} // verus!
