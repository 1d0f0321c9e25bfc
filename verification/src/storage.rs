use vstd::prelude::*;

verus! {

/// A keyed store: each key (a string identifier) is mapped to at most one value.
/// Entries are kept in the order in which their keys were first stored.
#[derive(Debug)]
pub struct Storage<T> {
    keys: Vec<String>,
    values: Vec<T>,
}

impl<T> Storage<T> {
    /// The keys, in storage order.
    pub closed spec fn key_seq(&self) -> Seq<Seq<char>> {
        self.keys@.map_values(|k: String| k@)
    }

    /// The values, in the same order as `key_seq`.
    pub closed spec fn value_seq(&self) -> Seq<T> {
        self.values@
    }

    /// Number of entries.
    pub open spec fn spec_len(&self) -> nat {
        self.key_seq().len()
    }

    /// Keys and values line up and no key occurs twice.
    pub open spec fn wf(&self) -> bool {
        &&& self.key_seq().len() == self.value_seq().len()
        &&& self.key_seq().no_duplicates()
    }

    /// Position of `key` among the keys, if it is stored.
    pub open spec fn position(&self, key: Seq<char>) -> Option<int> {
        if exists|i: int| 0 <= i < self.key_seq().len() && self.key_seq()[i] == key {
            Some(choose|i: int| 0 <= i < self.key_seq().len() && self.key_seq()[i] == key)
        } else {
            None
        }
    }

    /// Whether `key` is stored.
    pub open spec fn has(&self, key: Seq<char>) -> bool {
        self.key_seq().contains(key)
    }

    /// The value stored under `key`, if any.
    pub open spec fn lookup(&self, key: Seq<char>) -> Option<T> {
        match self.position(key) {
            Some(i) => Some(self.value_seq()[i]),
            None => None,
        }
    }

    /// The store as a map from keys to values.
    pub open spec fn as_map(&self) -> Map<Seq<char>, T> {
        Map::new(|k: Seq<char>| self.has(k), |k: Seq<char>| self.value_seq()[self.position(k)->0])
    }

    /// In a well-formed store, the position of a key is the index at which it stands.
    pub proof fn lemma_position(&self, i: int)
        requires
            self.wf(),
            0 <= i < self.key_seq().len(),
        ensures
            self.position(self.key_seq()[i]) == Some(i),
            self.lookup(self.key_seq()[i]) == Some(self.value_seq()[i]),
            self.has(self.key_seq()[i]),
    {
        let k = self.key_seq()[i];
        assert(exists|j: int| 0 <= j < self.key_seq().len() && self.key_seq()[j] == k);
        let j = choose|j: int| 0 <= j < self.key_seq().len() && self.key_seq()[j] == k;
        assert(j == i);
    }

    /// `has` agrees with `position` and `lookup`.
    pub proof fn lemma_has(&self, key: Seq<char>)
        requires
            self.wf(),
        ensures
            self.has(key) <==> self.position(key) is Some,
            self.has(key) <==> self.lookup(key) is Some,
            self.position(key) is Some ==> {
                let i = self.position(key)->0;
                &&& 0 <= i < self.key_seq().len()
                &&& self.key_seq()[i] == key
            },
    {
        if self.has(key) {
            let i = choose|i: int| 0 <= i < self.key_seq().len() && self.key_seq()[i] == key;
            self.lemma_position(i);
        }
    }

    /// The map view of a well-formed store holds, for each stored key, the value at the
    /// index where that key stands.
    pub proof fn lemma_as_map_at(&self, i: int)
        requires
            self.wf(),
            0 <= i < self.key_seq().len(),
        ensures
            self.as_map().contains_key(self.key_seq()[i]),
            self.as_map()[self.key_seq()[i]] == self.value_seq()[i],
    {
        self.lemma_position(i);
    }

    /// Two well-formed stores whose entries agree index by index, except possibly at one
    /// index, have map views that agree on every other key.
    proof fn lemma_map_eq_from_entries(&self, other: &Self, m: Map<Seq<char>, T>)
        requires
            self.wf(),
            other.wf(),
            forall|k: Seq<char>| #[trigger] m.contains_key(k) <==> other.has(k),
            forall|i: int|
                0 <= i < other.key_seq().len() ==> #[trigger] m[other.key_seq()[i]]
                    == other.value_seq()[i],
        ensures
            other.as_map() == m,
    {
        assert forall|k: Seq<char>| #[trigger] other.as_map().contains_key(k) implies other.as_map()[k]
            == m[k] by {
            let i = choose|i: int| 0 <= i < other.key_seq().len() && other.key_seq()[i] == k;
            other.lemma_as_map_at(i);
        }
        assert(other.as_map() =~= m);
    }

    /// Replacing the value at one index of a well-formed store, keys unchanged, is storing
    /// that value under the key found at that index.
    pub proof fn lemma_replace_at(&self, other: &Self, i: int, value: T)
        requires
            self.wf(),
            0 <= i < self.key_seq().len(),
            other.key_seq() == self.key_seq(),
            other.value_seq() == self.value_seq().update(i, value),
        ensures
            other.wf(),
            other.as_map() == self.as_map().insert(self.key_seq()[i], value),
    {
        let m = self.as_map().insert(self.key_seq()[i], value);
        assert forall|j: int| 0 <= j < other.key_seq().len() implies #[trigger] m[other.key_seq()[j]]
            == other.value_seq()[j] by {
            self.lemma_as_map_at(j);
        }
        assert forall|k: Seq<char>| #[trigger] m.contains_key(k) <==> other.has(k) by {
            self.lemma_has(k);
            self.lemma_position(i);
        }
        self.lemma_map_eq_from_entries(other, m);
    }

    /// In a well-formed store, looking a key up reads the map view.
    pub proof fn lemma_lookup_as_map(&self, key: Seq<char>)
        requires
            self.wf(),
        ensures
            self.lookup(key) == (if self.as_map().contains_key(key) {
                Some(self.as_map()[key])
            } else {
                None
            }),
    {
        self.lemma_has(key);
        if self.has(key) {
            self.lemma_as_map_at(self.position(key)->0);
        }
    }

    /// Reading back a write: after `update` stored `value` under `key`, `get` gives that
    /// value under `key`, and under any other key what it gave before.
    pub proof fn lemma_get_after_update(
        before: &Self,
        after: &Self,
        key: Seq<char>,
        value: T,
        other: Seq<char>,
    )
        requires
            before.wf(),
            after.wf(),
            after.as_map() == before.as_map().insert(key, value),
        ensures
            after.lookup(key) == Some(value),
            other != key ==> after.lookup(other) == before.lookup(other),
    {
        before.lemma_lookup_as_map(other);
        after.lemma_lookup_as_map(other);
        after.lemma_lookup_as_map(key);
    }

    /// After `delete` removed `key`, `get` finds nothing under `key`, and under any other
    /// key what it found before.
    pub proof fn lemma_get_after_delete(before: &Self, after: &Self, key: Seq<char>, other: Seq<char>)
        requires
            before.wf(),
            after.wf(),
            after.as_map() == before.as_map().remove(key),
        ensures
            after.lookup(key) is None,
            other != key ==> after.lookup(other) == before.lookup(other),
    {
        before.lemma_lookup_as_map(other);
        after.lemma_lookup_as_map(other);
        after.lemma_lookup_as_map(key);
    }

    /// `new` creates an empty store.
    pub fn new() -> (s: Self)
        ensures
            s.wf(),
            s.key_seq() == Seq::<Seq<char>>::empty(),
            s.value_seq() == Seq::<T>::empty(),
            s.as_map() == Map::<Seq<char>, T>::empty(),
    {
        let s = Storage { keys: Vec::new(), values: Vec::new() };
        assert(s.key_seq() =~= Seq::<Seq<char>>::empty());
        assert(s.as_map() =~= Map::<Seq<char>, T>::empty());
        s
    }

    /// Index of the entry stored under `id`, if any.
    fn find(&self, id: &str) -> (r: Option<usize>)
        requires
            self.wf(),
        ensures
            r is Some <==> self.has(id@),
            r is None <==> self.position(id@) is None,
            r is Some ==> {
                &&& r->0 < self.key_seq().len()
                &&& self.key_seq()[r->0 as int] == id@
                &&& self.position(id@) == Some(r->0 as int)
            },
    {
        let key = id.to_string();
        let n = self.keys.len();
        let mut i: usize = 0;
        while i < n
            invariant
                n == self.keys@.len(),
                self.wf(),
                key@ == id@,
                0 <= i <= n,
                forall|j: int| 0 <= j < i ==> self.key_seq()[j] != id@,
            decreases n - i,
        {
            if self.keys[i] == key {
                proof {
                    self.lemma_position(i as int);
                }
                return Some(i);
            }
            i += 1;
        }
        proof {
            self.lemma_has(id@);
        }
        None
    }

    /// Returns a reference to the value stored under `id`, or `None` when the key is absent.
    pub fn get(&self, id: &str) -> (r: Option<&T>)
        requires
            self.wf(),
        ensures
            r == (match self.lookup(id@) {
                Some(v) => Some(&v),
                None => None::<&T>,
            }),
    {
        match self.find(id) {
            Some(i) => {
                assert(self.lookup(id@) == Some(self.values@[i as int]));
                Some(&self.values[i])
            },
            None => None,
        }
    }

    /// Returns a mutable reference to the value stored under `id`, or `None` when the key is
    /// absent. Writing through the reference replaces that value and nothing else.
    pub fn get_mut(&mut self, id: &str) -> (r: Option<&mut T>)
        requires
            old(self).wf(),
        ensures
            final(self).wf(),
            final(self).key_seq() == old(self).key_seq(),
            r is Some <==> old(self).has(id@),
            match r {
                Some(v) => {
                    let i = old(self).position(id@)->0;
                    &&& *v == old(self).value_seq()[i]
                    &&& final(self).value_seq() == old(self).value_seq().update(i, *final(v))
                },
                None => *final(self) == *old(self),
            },
    {
        match self.find(id) {
            Some(i) => Some(&mut self.values[i]),
            None => None,
        }
    }

    /// Stores `value` under `id`: an existing entry keeps its place and gets the new value,
    /// otherwise a new entry is added at the end.
    pub fn update(&mut self, id: &str, value: T)
        requires
            old(self).wf(),
        ensures
            final(self).wf(),
            final(self).as_map() == old(self).as_map().insert(id@, value),
            match old(self).position(id@) {
                Some(i) => {
                    &&& final(self).key_seq() == old(self).key_seq()
                    &&& final(self).value_seq() == old(self).value_seq().update(i, value)
                },
                None => {
                    &&& final(self).key_seq() == old(self).key_seq().push(id@)
                    &&& final(self).value_seq() == old(self).value_seq().push(value)
                },
            },
    {
        match self.find(id) {
            Some(i) => {
                let ghost old_s = *self;
                self.values.set(i, value);
                proof {
                    let m = old_s.as_map().insert(id@, value);
                    assert forall|j: int| 0 <= j < self.key_seq().len() implies #[trigger] m[self.key_seq()[j]]
                        == self.value_seq()[j] by {
                        old_s.lemma_as_map_at(j);
                    }
                    assert forall|k: Seq<char>| #[trigger] m.contains_key(k) <==> self.has(k) by {
                        old_s.lemma_has(k);
                    }
                    old_s.lemma_map_eq_from_entries(self, m);
                }
            },
            None => {
                let ghost old_s = *self;
                let ghost old_keys = self.key_seq();
                let key = id.to_string();
                self.keys.push(key);
                self.values.push(value);
                assert(self.key_seq() =~= old_keys.push(id@));
                proof {
                    assert forall|a: int, b: int|
                        0 <= a < self.key_seq().len() && 0 <= b < self.key_seq().len() && a != b
                        implies self.key_seq()[a] != self.key_seq()[b] by {
                        if a == old_keys.len() as int {
                            assert(!old_keys.contains(id@));
                        } else if b == old_keys.len() as int {
                            assert(!old_keys.contains(id@));
                        }
                    }
                    let m = old_s.as_map().insert(id@, value);
                    assert forall|j: int| 0 <= j < self.key_seq().len() implies #[trigger] m[self.key_seq()[j]]
                        == self.value_seq()[j] by {
                        if j < old_keys.len() {
                            old_s.lemma_as_map_at(j);
                        }
                    }
                    assert forall|k: Seq<char>| #[trigger] m.contains_key(k) <==> self.has(k) by {
                        old_s.lemma_has(k);
                        if self.has(k) && k != id@ {
                            let j = choose|j: int| 0 <= j < self.key_seq().len() && self.key_seq()[j] == k;
                            assert(old_keys[j] == k);
                        }
                        if k == id@ {
                            assert(self.key_seq()[old_keys.len() as int] == id@);
                        }
                        if old_s.has(k) {
                            let j = choose|j: int| 0 <= j < old_keys.len() && old_keys[j] == k;
                            assert(self.key_seq()[j] == k);
                        }
                    }
                    old_s.lemma_map_eq_from_entries(self, m);
                }
            },
        }
    }

    /// Removes the entry stored under `id`, if any; the other entries keep their order.
    pub fn delete(&mut self, id: &str)
        requires
            old(self).wf(),
        ensures
            final(self).wf(),
            final(self).as_map() == old(self).as_map().remove(id@),
            match old(self).position(id@) {
                Some(i) => {
                    &&& final(self).key_seq() == old(self).key_seq().remove(i)
                    &&& final(self).value_seq() == old(self).value_seq().remove(i)
                },
                None => {
                    &&& final(self).key_seq() == old(self).key_seq()
                    &&& final(self).value_seq() == old(self).value_seq()
                },
            },
    {
        match self.find(id) {
            Some(i) => {
                let ghost old_s = *self;
                let ghost old_keys = self.key_seq();
                let _k = self.keys.remove(i);
                let _v = self.values.remove(i);
                assert(self.key_seq() =~= old_keys.remove(i as int));
                proof {
                    assert forall|a: int, b: int|
                        0 <= a < self.key_seq().len() && 0 <= b < self.key_seq().len() && a != b
                        implies self.key_seq()[a] != self.key_seq()[b] by {
                        let a2 = if a < i { a } else { a + 1 };
                        let b2 = if b < i { b } else { b + 1 };
                        assert(self.key_seq()[a] == old_keys[a2]);
                        assert(self.key_seq()[b] == old_keys[b2]);
                    }
                    let m = old_s.as_map().remove(id@);
                    assert forall|j: int| 0 <= j < self.key_seq().len() implies #[trigger] m[self.key_seq()[j]]
                        == self.value_seq()[j] by {
                        let j2 = if j < i { j } else { j + 1 };
                        assert(self.key_seq()[j] == old_keys[j2]);
                        old_s.lemma_as_map_at(j2);
                    }
                    assert forall|k: Seq<char>| #[trigger] m.contains_key(k) <==> self.has(k) by {
                        old_s.lemma_has(k);
                        if self.has(k) {
                            let j = choose|j: int| 0 <= j < self.key_seq().len() && self.key_seq()[j] == k;
                            let j2 = if j < i { j } else { j + 1 };
                            assert(old_keys[j2] == k);
                        }
                        if old_s.has(k) && k != id@ {
                            let j = choose|j: int| 0 <= j < old_keys.len() && old_keys[j] == k;
                            assert(j != i);
                            let j1 = if j < i { j } else { j - 1 };
                            assert(self.key_seq()[j1] == k);
                        }
                    }
                    old_s.lemma_map_eq_from_entries(self, m);
                }
            },
            None => {
                proof {
                    self.lemma_has(id@);
                    assert(self.as_map().remove(id@) =~= self.as_map());
                }
            },
        }
    }

    /// Whether an entry is stored under `id`.
    pub fn contains_key(&self, id: &str) -> (r: bool)
        requires
            self.wf(),
        ensures
            r == self.has(id@),
    {
        self.find(id).is_some()
    }

    /// Number of entries.
    pub fn len(&self) -> (r: usize)
        requires
            self.wf(),
        ensures
            r == self.spec_len(),
    {
        self.keys.len()
    }

    /// The keys, in storage order.
    pub fn keys(&self) -> (r: &Vec<String>)
        ensures
            r@.map_values(|k: String| k@) == self.key_seq(),
    {
        &self.keys
    }

    /// The stored values, in storage order.
    pub fn get_all(&self) -> (r: &Vec<T>)
        ensures
            r@ == self.value_seq(),
    {
        &self.values
    }

    /// Mutable access to the value at position `i` (in storage order).
    pub fn get_at_mut(&mut self, i: usize) -> (r: &mut T)
        requires
            old(self).wf(),
            i < old(self).spec_len(),
        ensures
            final(self).wf(),
            final(self).key_seq() == old(self).key_seq(),
            *r == old(self).value_seq()[i as int],
            final(self).value_seq() == old(self).value_seq().update(i as int, *final(r)),
    {
        &mut self.values[i]
    }
}

} // verus!
