use vstd::prelude::*;

use crate::graphics::handler::ResourceKey;

verus! {

/// The name of the key of the `i`-th entry
pub open spec fn key_at<K: ResourceKey, V>(entries: Seq<(K, V)>, i: int) -> Seq<char> {
    entries[i].0.key_view()
}

/// A small map from named keys to values, kept in insertion order
pub struct Table<K, V> {
    entries: Vec<(K, V)>,
    map: Ghost<Map<Seq<char>, V>>,
}

impl<K: ResourceKey, V> Table<K, V> {
    /// The value stored under each key name
    pub closed spec fn view(&self) -> Map<Seq<char>, V> {
        self.map@
    }

    /// The stored entries are exactly the map, one entry per key name
    pub closed spec fn wf(&self) -> bool {
        &&& forall|i: int|
            0 <= i < self.entries@.len() ==> self.map@.contains_key(#[trigger] key_at(self.entries@, i))
                && self.map@[key_at(self.entries@, i)] == self.entries@[i].1
        &&& forall|i: int, j: int|
            0 <= i < self.entries@.len() && 0 <= j < self.entries@.len() && i != j
                ==> #[trigger] key_at(self.entries@, i) != #[trigger] key_at(self.entries@, j)
        &&& forall|k: Seq<char>|
            #[trigger] self.map@.contains_key(k) ==> exists|i: int|
                0 <= i < self.entries@.len() && #[trigger] key_at(self.entries@, i) == k
    }

    /// The stored values, in the order they were stored
    pub closed spec fn values(&self) -> Seq<V> {
        self.entries@.map_values(|e: (K, V)| e.1)
    }

    /// The number of entries
    pub closed spec fn len(&self) -> nat {
        self.entries@.len()
    }

    pub fn new() -> (table: Self)
        ensures
            table.wf(),
            table@ == Map::<Seq<char>, V>::empty(),
    {
        Self { entries: Vec::new(), map: Ghost(Map::empty()) }
    }

    pub proof fn lemma_len_is_domain_size(&self)
        requires
            self.wf(),
        ensures
            self@.dom().finite(),
            self.len() == self@.dom().len(),
    {
        let keys = Seq::new(self.entries@.len(), |i: int| key_at(self.entries@, i));
        assert(keys.no_duplicates()) by {
            assert forall|i: int, j: int| 0 <= i < keys.len() && 0 <= j < keys.len() && i != j implies keys[i] != keys[j] by {
                assert(key_at(self.entries@, i) != key_at(self.entries@, j));
            }
        }
        assert(keys.to_set() =~= self@.dom()) by {
            assert forall|k: Seq<char>| keys.to_set().contains(k) implies self@.dom().contains(k) by {
                let i = choose|i: int| 0 <= i < keys.len() && keys[i] == k;
                assert(self.map@.contains_key(key_at(self.entries@, i)));
            }
            assert forall|k: Seq<char>| self@.dom().contains(k) implies keys.to_set().contains(k) by {
                let i = choose|i: int| 0 <= i < self.entries@.len() && #[trigger] key_at(self.entries@, i) == k;
                assert(keys[i] == k);
            }
        }
        keys.unique_seq_to_set();
    }

    /// The position of the entry for `key`, if there is one
    fn find(&self, key: &K) -> (idx: Option<usize>)
        requires
            self.wf(),
        ensures
            match idx {
                Some(i) => i < self.entries@.len() && key_at(self.entries@, i as int) == key.key_view(),
                None => !self@.contains_key(key.key_view()),
            },
    {
        let mut i: usize = 0;
        while i < self.entries.len()
            invariant
                self.wf(),
                i <= self.entries@.len(),
                forall|j: int| 0 <= j < i ==> #[trigger] key_at(self.entries@, j) != key.key_view(),
            decreases self.entries@.len() - i,
        {
            if self.entries[i].0.same_key(key) {
                return Some(i);
            }
            i += 1;
        }
        None
    }

    /// Whether a value is stored under the key's name
    pub fn contains(&self, key: &K) -> (found: bool)
        requires
            self.wf(),
        ensures
            found == self@.contains_key(key.key_view()),
    {
        self.find(key).is_some()
    }

    /// The value stored under the key's name
    pub fn get(&self, key: &K) -> (value: Option<&V>)
        requires
            self.wf(),
        ensures
            match value {
                Some(v) => self@.contains_key(key.key_view()) && *v == self@[key.key_view()],
                None => !self@.contains_key(key.key_view()),
            },
    {
        match self.find(key) {
            Some(i) => Some(&self.entries[i].1),
            None => None,
        }
    }

    /// Store a value under the key's name, replacing any value stored there; returns the
    /// replaced value
    pub fn insert(&mut self, key: K, value: V) -> (previous: Option<V>)
        requires
            old(self).wf(),
        ensures
            final(self).wf(),
            final(self)@ == old(self)@.insert(key.key_view(), value),
            match previous {
                Some(v) => old(self)@.contains_key(key.key_view()) && v == old(self)@[key.key_view()],
                None => !old(self)@.contains_key(key.key_view()),
            },
    {
        let ghost k = key.key_view();
        match self.find(&key) {
            Some(i) => {
                let (old_key, previous) = self.entries.remove(i);
                self.entries.insert(i, (old_key, value));
                self.map = Ghost(self.map@.insert(k, value));
                assert forall|j: int| 0 <= j < self.entries@.len() && j != i implies #[trigger] key_at(self.entries@, j) == key_at(old(self).entries@, j) by {
                }
                assert forall|kk: Seq<char>| #[trigger] self.map@.contains_key(kk) implies exists|j: int|
                    0 <= j < self.entries@.len() && #[trigger] key_at(self.entries@, j) == kk by {
                    let j = choose|j: int| 0 <= j < old(self).entries@.len() && #[trigger] key_at(old(self).entries@, j) == kk;
                    assert(key_at(self.entries@, j) == kk);
                }
                assert forall|j: int, l: int|
                    0 <= j < self.entries@.len() && 0 <= l < self.entries@.len() && j != l
                        implies #[trigger] key_at(self.entries@, j) != #[trigger] key_at(self.entries@, l) by {
                    assert(key_at(old(self).entries@, j) != key_at(old(self).entries@, l));
                }
                Some(previous)
            },
            None => {
                self.entries.push((key, value));
                self.map = Ghost(self.map@.insert(k, value));
                assert forall|i: int| 0 <= i < self.entries@.len() implies self.map@.contains_key(#[trigger] key_at(self.entries@, i))
                    && self.map@[key_at(self.entries@, i)] == self.entries@[i].1 by {
                    if i < old(self).entries@.len() {
                        assert(key_at(self.entries@, i) == key_at(old(self).entries@, i));
                    }
                }
                assert forall|i: int, j: int|
                    0 <= i < self.entries@.len() && 0 <= j < self.entries@.len() && i != j
                        implies #[trigger] key_at(self.entries@, i) != #[trigger] key_at(self.entries@, j) by {
                    if i < old(self).entries@.len() {
                        assert(key_at(self.entries@, i) == key_at(old(self).entries@, i));
                    }
                    if j < old(self).entries@.len() {
                        assert(key_at(self.entries@, j) == key_at(old(self).entries@, j));
                    }
                }
                assert forall|kk: Seq<char>| #[trigger] self.map@.contains_key(kk) implies exists|i: int|
                    0 <= i < self.entries@.len() && #[trigger] key_at(self.entries@, i) == kk by {
                    if kk == k {
                        assert(key_at(self.entries@, self.entries@.len() - 1) == kk);
                    } else {
                        let i = choose|i: int| 0 <= i < old(self).entries@.len() && #[trigger] key_at(old(self).entries@, i) == kk;
                        assert(key_at(self.entries@, i) == kk);
                    }
                }
                None
            },
        }
    }

    /// Remove the value stored under the key's name, returning it
    pub fn remove(&mut self, key: &K) -> (previous: Option<V>)
        requires
            old(self).wf(),
        ensures
            final(self).wf(),
            final(self)@ == old(self)@.remove(key.key_view()),
            match previous {
                Some(v) => old(self)@.contains_key(key.key_view()) && v == old(self)@[key.key_view()],
                None => !old(self)@.contains_key(key.key_view()),
            },
    {
        match self.find(key) {
            Some(i) => {
                let ghost k = key_at(self.entries@, i as int);
                let (_key, previous) = self.entries.remove(i);
                self.map = Ghost(self.map@.remove(k));
                assert forall|j: int| 0 <= j < self.entries@.len() implies #[trigger] key_at(self.entries@, j) == key_at(old(self).entries@,
                    if j < i { j } else { j + 1 },
                ) by {
                }
                assert forall|j: int| 0 <= j < self.entries@.len() implies self.map@.contains_key(#[trigger] key_at(self.entries@, j))
                    && self.map@[key_at(self.entries@, j)] == self.entries@[j].1 by {
                    let oj = if j < i { j } else { j + 1 };
                    assert(key_at(old(self).entries@, oj) != key_at(old(self).entries@, i as int));
                }
                assert forall|kk: Seq<char>| #[trigger] self.map@.contains_key(kk) implies exists|j: int|
                    0 <= j < self.entries@.len() && #[trigger] key_at(self.entries@, j) == kk by {
                    let oj = choose|j: int| 0 <= j < old(self).entries@.len() && #[trigger] key_at(old(self).entries@, j) == kk;
                    let j = if oj < i { oj } else { oj - 1 };
                    assert(key_at(self.entries@, j) == kk);
                }
                assert forall|j: int, l: int|
                    0 <= j < self.entries@.len() && 0 <= l < self.entries@.len() && j != l
                        implies #[trigger] key_at(self.entries@, j) != #[trigger] key_at(self.entries@, l) by {
                    let oj = if j < i { j } else { j + 1 };
                    let ol = if l < i { l } else { l + 1 };
                    assert(key_at(old(self).entries@, oj) != key_at(old(self).entries@, ol));
                }
                Some(previous)
            },
            None => {
                assert(self.map@.remove(key.key_view()) =~= self.map@);
                None
            },
        }
    }

    /// A copy of every key, in the order they were stored
    pub fn keys(&self) -> (keys: Vec<K>)
        requires
            self.wf(),
        ensures
            forall|i: int| 0 <= i < keys@.len() ==> self@.contains_key(#[trigger] keys@[i].key_view()),
            forall|k: Seq<char>| #[trigger] self@.contains_key(k) ==> exists|i: int|
                0 <= i < keys@.len() && #[trigger] keys@[i].key_view() == k,
    {
        let mut keys: Vec<K> = Vec::new();
        let mut i: usize = 0;
        while i < self.entries.len()
            invariant
                self.wf(),
                i <= self.entries@.len(),
                keys@.len() == i,
                forall|j: int| 0 <= j < i ==> #[trigger] keys@[j].key_view() == key_at(self.entries@, j),
            decreases self.entries@.len() - i,
        {
            keys.push(self.entries[i].0.clone_key());
            i += 1;
        }
        assert forall|k: Seq<char>| #[trigger] self@.contains_key(k) implies exists|i: int|
            0 <= i < keys@.len() && #[trigger] keys@[i].key_view() == k by {
            let i = choose|i: int| 0 <= i < self.entries@.len() && #[trigger] key_at(self.entries@, i) == k;
            assert(keys@[i].key_view() == k);
        }
        keys
    }

    /// Take every entry out, in the order they were stored; the table is left empty
    pub fn drain(&mut self) -> (entries: Vec<(K, V)>)
        requires
            old(self).wf(),
        ensures
            final(self).wf(),
            final(self)@ == Map::<Seq<char>, V>::empty(),
            entries@.len() == old(self).len(),
            entries@.map_values(|e: (K, V)| e.1) == old(self).values(),
            forall|i: int, j: int|
                0 <= i < entries@.len() && 0 <= j < entries@.len() && i != j
                    ==> #[trigger] key_at(entries@, i) != #[trigger] key_at(entries@, j),
            forall|i: int| 0 <= i < entries@.len() ==> old(self)@.contains_key(#[trigger] key_at(entries@, i))
                && old(self)@[key_at(entries@, i)] == entries@[i].1,
            forall|k: Seq<char>| #[trigger] old(self)@.contains_key(k) ==> exists|i: int|
                0 <= i < entries@.len() && #[trigger] key_at(entries@, i) == k,
    {
        let mut entries: Vec<(K, V)> = Vec::new();
        std::mem::swap(&mut entries, &mut self.entries);
        self.map = Ghost(Map::empty());
        assert(self.map@ =~= Map::<Seq<char>, V>::empty());
        entries
    }
}

} // verus!
