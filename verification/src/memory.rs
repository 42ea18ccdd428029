//! A map keyed by absolute paths.

use vstd::prelude::*;
use crate::path::AbsPath;

verus! {

/// A finite map from absolute paths to values.
pub struct PathMap<V> {
    keys: Vec<AbsPath>,
    values: Vec<V>,
}

impl<V> View for PathMap<V> {
    type V = Map<Seq<Seq<char>>, V>;

    closed spec fn view(&self) -> Map<Seq<Seq<char>>, V> {
        Map::new(
            |key: Seq<Seq<char>>| exists|i: int| self.holds_at(key, i),
            |key: Seq<Seq<char>>| self.values@[choose|i: int| self.holds_at(key, i)],
        )
    }
}

impl<V> PathMap<V> {
    /// Each key has its value beside it, and no path is a key twice.
    #[verifier::type_invariant]
    spec fn inv(&self) -> bool {
        &&& self.keys@.len() == self.values@.len()
        &&& forall|i: int, j: int|
            0 <= i < j < self.keys@.len() ==> self.keys@[i]@ != self.keys@[j]@
    }

    spec fn holds_at(&self, key: Seq<Seq<char>>, i: int) -> bool {
        0 <= i < self.keys@.len() && self.keys@[i]@ == key
    }

    /// Whether a map has the keys of this one, and its values but at one place.
    spec fn differs_at(&self, after: Self, i: int) -> bool {
        &&& after.keys == self.keys
        &&& after.values@ == self.values@.update(i, after.values@[i])
    }

    /// A key found at a place is a key of the map, with the value of that place.
    proof fn lemma_slot(&self, i: int)
        requires
            self.inv(),
            0 <= i < self.keys@.len(),
        ensures
            self@.contains_key(self.keys@[i]@),
            self@[self.keys@[i]@] == self.values@[i],
    {
        assert(self.holds_at(self.keys@[i]@, i));
    }

    /// A map that differs from this one in the value of one place is this map
    /// with the key of that place set anew.
    proof fn lemma_updated(&self, after: Self, i: int)
        requires
            self.inv(),
            0 <= i < self.keys@.len(),
            self.differs_at(after, i),
        ensures
            after.inv(),
            after@ == self@.insert(self.keys@[i]@, after.values@[i]),
    {
        let changed = self@.insert(self.keys@[i]@, after.values@[i]);
        assert forall|key: Seq<Seq<char>>| after@.contains_key(key) == changed.contains_key(
            key,
        ) by {
            if after@.contains_key(key) {
                let k = choose|k: int| after.holds_at(key, k);
                assert(self.holds_at(key, k));
            }
            if self@.contains_key(key) {
                let k = choose|k: int| self.holds_at(key, k);
                assert(after.holds_at(key, k));
            }
            if key == self.keys@[i]@ {
                assert(after.holds_at(key, i));
            }
        }
        assert forall|key: Seq<Seq<char>>| after@.contains_key(key) implies after@[key]
            == changed[key] by {
            let k = choose|k: int| after.holds_at(key, k);
            after.lemma_slot(k);
            self.lemma_slot(k);
        }
        assert(after@ =~= changed);
    }

    /// [`Self::lemma_updated`] of every map that differs in the value of one place.
    proof fn lemma_updated_all(&self, i: int)
        requires
            self.inv(),
            0 <= i < self.keys@.len(),
        ensures
            forall|after: Self|
                self.differs_at(after, i) ==> #[trigger] after@ == self@.insert(
                    self.keys@[i]@,
                    after.values@[i],
                ),
    {
        assert forall|after: Self| self.differs_at(after, i) implies #[trigger] after@
            == self@.insert(self.keys@[i]@, after.values@[i]) by {
            self.lemma_updated(after, i);
        }
    }

    /// A map that has one place more than this one, with a key that this one
    /// lacks, is this map with that key set.
    proof fn lemma_extended(&self, after: Self, key: AbsPath, value: V)
        requires
            self.inv(),
            after.keys@ == self.keys@.push(key),
            after.values@ == self.values@.push(value),
            !self@.contains_key(key@),
        ensures
            after.inv(),
            after@ == self@.insert(key@, value),
    {
        let n = self.keys@.len() as int;
        let changed = self@.insert(key@, value);
        assert forall|i: int, j: int| 0 <= i < j < after.keys@.len() implies after.keys@[i]@
            != after.keys@[j]@ by {
            if j == n {
                assert(self.holds_at(self.keys@[i]@, i));
            }
        }
        assert forall|k: Seq<Seq<char>>| after@.contains_key(k) == changed.contains_key(k) by {
            if after@.contains_key(k) {
                let i = choose|i: int| after.holds_at(k, i);
                if i < n {
                    assert(self.holds_at(k, i));
                }
            }
            if self@.contains_key(k) {
                let i = choose|i: int| self.holds_at(k, i);
                assert(after.holds_at(k, i));
            }
            if k == key@ {
                assert(after.holds_at(k, n));
            }
        }
        assert forall|k: Seq<Seq<char>>| after@.contains_key(k) implies after@[k] == changed[k] by {
            let i = choose|i: int| after.holds_at(k, i);
            after.lemma_slot(i);
            if i < n {
                self.lemma_slot(i);
            }
        }
        assert(after@ =~= changed);
    }

    /// The place of a key among the keys.
    fn position(&self, key: &AbsPath) -> (place: Option<usize>)
        ensures
            match place {
                Some(i) => self.holds_at(key@, i as int),
                None => !self@.contains_key(key@),
            },
    {
        let mut i: usize = 0;
        while i < self.keys.len()
            invariant
                forall|k: int| 0 <= k < i ==> !self.holds_at(key@, k),
            decreases self.keys.len() - i,
        {
            if self.keys[i].same_as(key) {
                return Some(i);
            }
            i += 1;
        }
        None
    }

    /// A map without keys.
    pub fn new() -> (map: Self)
        ensures
            map@ == Map::<Seq<Seq<char>>, V>::empty(),
    {
        let map = PathMap { keys: Vec::new(), values: Vec::new() };
        assert(map@ =~= Map::<Seq<Seq<char>>, V>::empty());
        map
    }

    /// Whether a path is a key of the map.
    pub fn contains_key(&self, key: &AbsPath) -> (found: bool)
        ensures
            found == self@.contains_key(key@),
    {
        self.position(key).is_some()
    }

    /// The value kept under a key.
    pub fn get(&self, key: &AbsPath) -> (value: Option<&V>)
        ensures
            match value {
                Some(value) => self@.contains_key(key@) && *value == self@[key@],
                None => !self@.contains_key(key@),
            },
    {
        proof {
            use_type_invariant(self);
        }
        match self.position(key) {
            Some(i) => {
                proof {
                    self.lemma_slot(i as int);
                }
                Some(&self.values[i])
            },
            None => None,
        }
    }

    /// Mutable access to the value kept under a key.
    pub fn get_mut(&mut self, key: &AbsPath) -> (value: Option<&mut V>)
        ensures
            match value {
                Some(value) => old(self)@.contains_key(key@) && *value == old(self)@[key@]
                    && final(self)@ == old(self)@.insert(key@, *final(value)),
                None => !old(self)@.contains_key(key@) && final(self)@ == old(self)@,
            },
    {
        proof {
            use_type_invariant(&*self);
        }
        match self.position(key) {
            Some(i) => {
                proof {
                    self.lemma_slot(i as int);
                    self.lemma_updated_all(i as int);
                }
                Some(&mut self.values[i])
            },
            None => None,
        }
    }

    /// Sets the value kept under a key, which becomes a key if it was none.
    pub fn insert(&mut self, key: AbsPath, value: V)
        ensures
            final(self)@ == old(self)@.insert(key@, value),
    {
        proof {
            use_type_invariant(&*self);
        }
        match self.position(&key) {
            Some(i) => {
                proof {
                    self.lemma_updated_all(i as int);
                }
                self.values[i] = value;
            },
            None => {
                let ghost before = *self;
                let mut taken = PathMap { keys: Vec::new(), values: Vec::new() };
                core::mem::swap(self, &mut taken);
                let PathMap { mut keys, mut values } = taken;
                keys.push(key);
                values.push(value);
                proof {
                    before.lemma_extended(PathMap { keys, values }, key, value);
                }
                *self = PathMap { keys, values };
            },
        }
    }
}

} // verus!
