//! The raw key/value backend the preference schema layers over: a tiny
//! string-to-string store (`get` / `set` / `remove` / `keys`), and the
//! in-memory store every browser tab starts from.

use vstd::prelude::*;

use crate::ordmap::OrdStrMap;

verus! {

/// A raw device-local string store.
pub trait KeyValueBackend {
    /// What the store holds.
    spec fn entries(&self) -> Map<Seq<char>, Seq<char>>;

    /// The store's own consistency condition.
    spec fn inv(&self) -> bool;

    /// The order in which [`KeyValueBackend::keys`] lists the keys.
    spec fn key_order(&self) -> Seq<Seq<char>>;

    /// Read the raw value at `key`, or `None` if unset.
    fn get(&self, key: &str) -> (r: Option<String>)
        requires
            self.inv(),
        ensures
            match r {
                Some(v) => self.entries().contains_key(key@) && self.entries()[key@] == v@,
                None => !self.entries().contains_key(key@),
            },
    ;

    /// Write the raw `value` at `key`.
    fn set(&mut self, key: &str, value: &str)
        requires
            old(self).inv(),
        ensures
            final(self).inv(),
            final(self).entries() == old(self).entries().insert(key@, value@),
    ;

    /// Remove `key`. A no-op if it was unset.
    fn remove(&mut self, key: &str)
        requires
            old(self).inv(),
        ensures
            final(self).inv(),
            final(self).entries() == old(self).entries().remove(key@),
    ;

    /// Every key currently present, each once, in the store's key order.
    fn keys(&self) -> (r: Vec<String>)
        requires
            self.inv(),
        ensures
            r@.map_values(|s: String| s@) == self.key_order(),
            forall|i: int| 0 <= i < r@.len() ==> self.entries().contains_key(#[trigger] r@[i]@),
            forall|k: Seq<char>| #[trigger] self.entries().contains_key(k) ==> exists|i: int|
                0 <= i < r@.len() && r@[i]@ == k,
            forall|i: int, j: int| 0 <= i < j < r@.len() ==> #[trigger] r@[i]@ != #[trigger] r@[j]@,
    ;
}

/// An in-memory [`KeyValueBackend`]: the shipped browser store, where nothing
/// survives the tab, and the test fixture.
#[derive(Debug, Default)]
pub struct InMemoryBackend {
    map: OrdStrMap,
}

impl InMemoryBackend {
    /// A fresh, empty backend.
    pub fn new() -> (b: Self)
        ensures
            b.inv(),
            b.entries() == Map::<Seq<char>, Seq<char>>::empty(),
    {
        InMemoryBackend { map: OrdStrMap::new() }
    }

    /// A backend seeded with raw entries, written in order (a later entry for
    /// the same key overwrites an earlier one).
    pub fn seeded(entries: Vec<(String, String)>) -> (b: Self)
        ensures
            b.inv(),
            b.entries() == seeded_map(entries@),
    {
        let mut backend = InMemoryBackend::new();
        let mut i: usize = 0;
        proof {
            assert(entries@.take(0) =~= Seq::<(String, String)>::empty());
        }
        while i < entries.len()
            invariant
                i <= entries@.len(),
                backend.inv(),
                backend.entries() == seeded_map(entries@.take(i as int)),
            decreases entries.len() - i,
        {
            let (k, v) = &entries[i];
            backend.set(k.as_str(), v.as_str());
            proof {
                assert(entries@.take(i + 1).drop_last() =~= entries@.take(i as int));
            }
            i = i + 1;
        }
        proof {
            assert(entries@.take(entries@.len() as int) =~= entries@);
        }
        backend
    }
}

/// The map a sequence of writes leaves behind.
pub open spec fn seeded_map(s: Seq<(String, String)>) -> Map<Seq<char>, Seq<char>>
    decreases s.len(),
{
    if s.len() == 0 {
        Map::empty()
    } else {
        seeded_map(s.drop_last()).insert(s.last().0@, s.last().1@)
    }
}

impl KeyValueBackend for InMemoryBackend {
    closed spec fn entries(&self) -> Map<Seq<char>, Seq<char>> {
        self.map@
    }

    closed spec fn inv(&self) -> bool {
        self.map.wf()
    }

    /// Ascending key order.
    closed spec fn key_order(&self) -> Seq<Seq<char>> {
        self.map.pairs().map_values(|p: (Seq<char>, Seq<char>)| p.0)
    }

    fn get(&self, key: &str) -> (r: Option<String>) {
        match self.map.get(key) {
            Some(v) => Some(v.clone()),
            None => None,
        }
    }

    fn set(&mut self, key: &str, value: &str) {
        self.map.insert(key.to_owned(), value.to_owned());
    }

    fn remove(&mut self, key: &str) {
        self.map.remove(key);
    }

    fn keys(&self) -> (r: Vec<String>) {
        let r = self.map.keys();
        proof {
            assert(r@.map_values(|s: String| s@) =~= self.key_order());
            assert forall|i: int| 0 <= i < r@.len() implies self.entries().contains_key(#[trigger] r@[i]@) by {
                self.map.lemma_view_at(i);
            }
            assert forall|k: Seq<char>| #[trigger] self.entries().contains_key(k) implies exists|i: int|
                0 <= i < r@.len() && r@[i]@ == k by {
                let i = crate::ordmap::index_of_key(self.map.pairs(), k);
                assert(r@[i]@ == k);
            }
            assert forall|i: int, j: int| 0 <= i < j < r@.len() implies #[trigger] r@[i]@ != #[trigger] r@[j]@ by {
                crate::ordmap::lemma_seq_lt_asym(self.map.pairs()[i].0, self.map.pairs()[j].0);
            }
        }
        r
    }
}

} // verus!
