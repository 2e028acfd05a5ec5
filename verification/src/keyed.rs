//! A map from names to values that keeps the order in which names were first added.
use vstd::prelude::*;
use crate::strings::str_equal;

verus! {

/// Names with one value each, every name at most once, in the order they were added.
#[derive(Debug)]
pub struct NamedMap<V> {
    keys: Vec<String>,
    vals: Vec<V>,
}

impl<V> NamedMap<V> {
    /// The names, in the order they were added.
    pub closed spec fn names(&self) -> Seq<Seq<char>> {
        self.keys@.map_values(|k: String| k@)
    }

    /// The values, in the order of their names.
    pub closed spec fn values(&self) -> Seq<V> {
        self.vals@
    }

    #[verifier::type_invariant]
    closed spec fn well_formed(&self) -> bool {
        &&& self.keys@.len() == self.vals@.len()
        &&& forall|i: int, j: int|
            0 <= i < j < self.keys@.len() ==> #[trigger] self.keys@[i]@ != #[trigger] self.keys@[j]@
    }

    /// The value of each name.
    pub open spec fn view(&self) -> Map<Seq<char>, V> {
        Map::new(
            |k: Seq<char>| self.names().contains(k),
            |k: Seq<char>| self.values()[self.names().index_of(k)],
        )
    }

    /// The names and values line up, and no name occurs twice.
    proof fn lemma_shape(&self)
        requires
            self.well_formed(),
        ensures
            self.names().len() == self.values().len(),
            self.names().no_duplicates(),
    {
        assert forall|i: int, j: int|
            0 <= i < self.names().len() && 0 <= j < self.names().len() && i != j implies
            self.names()[i] != self.names()[j] by {
            if i < j {
                assert(self.keys@[i]@ != self.keys@[j]@);
            } else {
                assert(self.keys@[j]@ != self.keys@[i]@);
            }
        }
    }

    /// The value at position `i` is the value of the name at position `i`.
    proof fn lemma_entry(&self, i: int)
        requires
            self.well_formed(),
            0 <= i < self.names().len(),
        ensures
            self@.contains_key(self.names()[i]),
            self@[self.names()[i]] == self.values()[i],
    {
        self.lemma_shape();
        let k = self.names()[i];
        assert(self.names().contains(k));
        let j = self.names().index_of(k);
        assert(self.names()[j] == k);
        assert(j == i);
    }

    /// The names and values line up, no name occurs twice, and the value at each
    /// position is the value of the name there.
    pub fn shape(&self)
        ensures
            self.names().len() == self.values().len(),
            self.names().no_duplicates(),
            forall|i: int|
                0 <= i < self.names().len() ==> self@.contains_key(#[trigger] self.names()[i])
                    && self@[self.names()[i]] == self.values()[i],
    {
        proof {
            use_type_invariant(self);
            self.lemma_shape();
            assert forall|i: int| 0 <= i < self.names().len() implies self@.contains_key(
                #[trigger] self.names()[i],
            ) && self@[self.names()[i]] == self.values()[i] by {
                self.lemma_entry(i);
            }
        }
    }

    /// An empty map.
    pub fn new() -> (r: Self)
        ensures
            r.names() == Seq::<Seq<char>>::empty(),
            r@ == Map::<Seq<char>, V>::empty(),
    {
        let r = NamedMap { keys: Vec::new(), vals: Vec::new() };
        assert(r.names() =~= Seq::<Seq<char>>::empty());
        assert(r@ =~= Map::<Seq<char>, V>::empty());
        r
    }

    /// The number of names.
    pub fn len(&self) -> (n: usize)
        ensures
            n == self.names().len(),
    {
        self.keys.len()
    }

    /// The position of `name`, if it is present.
    pub fn position(&self, name: &str) -> (r: Option<usize>)
        ensures
            match r {
                Some(i) => i < self.names().len() && self.names()[i as int] == name@,
                None => !self.names().contains(name@),
            },
    {
        let mut i: usize = 0;
        while i < self.keys.len()
            invariant
                i <= self.keys@.len(),
                forall|j: int| 0 <= j < i ==> self.keys@[j]@ != name@,
            decreases self.keys.len() - i,
        {
            if str_equal(self.keys[i].as_str(), name) {
                return Some(i);
            }
            i = i + 1;
        }
        assert forall|j: int| 0 <= j < self.names().len() implies self.names()[j] != name@ by {
            assert(self.keys@[j]@ != name@);
        }
        None
    }

    /// The value of `name`, if it is present.
    pub fn get(&self, name: &str) -> (r: Option<&V>)
        ensures
            match r {
                Some(v) => self@.contains_key(name@) && *v == self@[name@],
                None => !self@.contains_key(name@),
            },
    {
        proof {
            use_type_invariant(self);
        }
        match self.position(name) {
            Some(i) => {
                proof {
                    self.lemma_entry(i as int);
                }
                Some(&self.vals[i])
            },
            None => None,
        }
    }

    /// The name at position `i`.
    pub fn name_at(&self, i: usize) -> (r: &str)
        requires
            i < self.names().len(),
        ensures
            r@ == self.names()[i as int],
    {
        self.keys[i].as_str()
    }

    /// The value at position `i`.
    pub fn value_at(&self, i: usize) -> (r: &V)
        requires
            i < self.names().len(),
        ensures
            *r == self.values()[i as int],
    {
        proof {
            use_type_invariant(self);
        }
        &self.vals[i]
    }

    /// Sets the value of `name`: a new name goes last, a present one keeps its place.
    pub fn insert(&mut self, name: String, value: V)
        ensures
            final(self)@ == old(self)@.insert(name@, value),
            old(self).names().contains(name@) ==> final(self).names() == old(self).names(),
            !old(self).names().contains(name@) ==> final(self).names() == old(self).names().push(
                name@,
            ),
    {
        proof {
            use_type_invariant(&*self);
        }
        let ghost old_self = *self;
        assert(old_self.well_formed());
        match self.position(name.as_str()) {
            Some(i) => {
                let mut taken = NamedMap { keys: Vec::new(), vals: Vec::new() };
                std::mem::swap(self, &mut taken);
                let NamedMap { keys, mut vals } = taken;
                vals.set(i, value);
                proof {
                    assert forall|a: int, b: int|
                        0 <= a < b < keys@.len() implies #[trigger] keys@[a]@ != #[trigger] keys@[b]@ by {
                        assert(old_self.keys@[a]@ != old_self.keys@[b]@);
                    }
                }
                *self = NamedMap { keys, vals };
                proof {
                    old_self.lemma_shape();
                    assert(self.names() == old_self.names());
                    assert forall|k: Seq<char>| #[trigger] self@.contains_key(k) <==> old_self@.insert(
                        name@,
                        value,
                    ).contains_key(k) by {
                        if k == name@ {
                            assert(self.names()[i as int] == k);
                        }
                    }
                    assert forall|k: Seq<char>| self@.contains_key(k) implies #[trigger] self@[k]
                        == old_self@.insert(name@, value)[k] by {
                        let j = self.names().index_of(k);
                        if k == name@ {
                            self.lemma_entry(i as int);
                        } else {
                            assert(self.names()[j] == k);
                            old_self.lemma_entry(j);
                            self.lemma_entry(j);
                            assert(j != i);
                        }
                    }
                    assert(self@ =~= old_self@.insert(name@, value));
                }
            },
            None => {
                let mut taken = NamedMap { keys: Vec::new(), vals: Vec::new() };
                std::mem::swap(self, &mut taken);
                let NamedMap { mut keys, mut vals } = taken;
                let ghost name_view = name@;
                keys.push(name);
                vals.push(value);
                proof {
                    assert forall|a: int, b: int|
                        0 <= a < b < keys@.len() implies #[trigger] keys@[a]@ != #[trigger] keys@[b]@ by {
                        if b == keys@.len() - 1 {
                            assert(old_self.names()[a] == keys@[a]@);
                            assert(old_self.names().contains(keys@[a]@));
                        } else {
                            assert(old_self.keys@[a]@ != old_self.keys@[b]@);
                        }
                    }
                }
                *self = NamedMap { keys, vals };
                proof {
                    old_self.lemma_shape();
                    assert(self.names() =~= old_self.names().push(name@));
                    assert forall|k: Seq<char>| #[trigger] self@.contains_key(k) <==> old_self@.insert(
                        name@,
                        value,
                    ).contains_key(k) by {
                        if self.names().contains(k) && k != name@ {
                            let j = self.names().index_of(k);
                            assert(self.names()[j] == k);
                            assert(j != self.names().len() - 1);
                            assert(old_self.names()[j] == k);
                        }
                        if old_self.names().contains(k) {
                            let j = old_self.names().index_of(k);
                            assert(self.names()[j] == k);
                        }
                        if k == name@ {
                            assert(self.names()[self.names().len() - 1] == k);
                        }
                    }
                    assert forall|k: Seq<char>| self@.contains_key(k) implies #[trigger] self@[k]
                        == old_self@.insert(name@, value)[k] by {
                        let j = self.names().index_of(k);
                        assert(self.names()[j] == k);
                        self.lemma_entry(j);
                        if k != name@ {
                            assert(j < old_self.names().len());
                            old_self.lemma_entry(j);
                        } else {
                            self.lemma_entry(self.names().len() - 1);
                        }
                    }
                    assert(self@ =~= old_self@.insert(name@, value));
                }
            },
        }
    }
}

} // verus!
