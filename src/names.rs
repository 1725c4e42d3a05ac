use vstd::prelude::*;

verus! {

/// A table keyed by name: each name at most once, a later insertion under a
/// name replacing the earlier one.
#[derive(Debug)]
pub struct NameMap<T> {
    keys: Vec<String>,
    vals: Vec<T>,
}

impl<T> NameMap<T> {
    /// The names, in insertion order.
    pub closed spec fn names(&self) -> Seq<Seq<char>> {
        Seq::new(self.keys@.len(), |i: int| self.keys@[i]@)
    }

    #[verifier::type_invariant]
    closed spec fn wf(&self) -> bool {
        &&& self.keys@.len() == self.vals@.len()
        &&& self.names().no_duplicates()
    }

    closed spec fn slot(&self, name: Seq<char>) -> int {
        choose|i: int| 0 <= i < self.keys@.len() && self.keys@[i]@ == name
    }

    proof fn lemma_slot(&self, i: int)
        requires
            self.wf(),
            0 <= i < self.keys@.len(),
        ensures
            self.slot(self.keys@[i]@) == i,
            self@.contains_key(self.keys@[i]@),
            self@[self.keys@[i]@] == self.vals@[i],
    {
        let name = self.keys@[i]@;
        assert(self.names()[i] == name);
        let j = self.slot(name);
        assert(self.names()[j] == name);
    }

    /// Every name held appears among the names in insertion order.
    pub proof fn lemma_named(&self, k: Seq<char>)
        requires
            self@.contains_key(k),
        ensures
            exists|j: int| 0 <= j < self.names().len() && self.names()[j] == k,
    {
        let j = choose|j: int| 0 <= j < self.keys@.len() && self.keys@[j]@ == k;
        assert(self.names()[j] == k);
    }

    /// Every name in insertion order is held.
    pub proof fn lemma_name_held(&self, i: int)
        requires
            0 <= i < self.names().len(),
        ensures
            self@.contains_key(self.names()[i]),
    {
        assert(self.keys@[i]@ == self.names()[i]);
    }

    pub fn new() -> (m: Self)
        ensures
            m@ == Map::<Seq<char>, T>::empty(),
            m.names() == Seq::<Seq<char>>::empty(),
    {
        let m = NameMap { keys: Vec::new(), vals: Vec::new() };
        assert(m@ =~= Map::<Seq<char>, T>::empty());
        assert(m.names() =~= Seq::<Seq<char>>::empty());
        m
    }

    /// Number of names held.
    pub fn len(&self) -> (n: usize)
        ensures
            n == self.names().len(),
            self.names().no_duplicates(),
    {
        proof {
            use_type_invariant(self);
        }
        self.keys.len()
    }

    /// The name at position `i` of insertion order.
    pub fn name_at(&self, i: usize) -> (k: &String)
        requires
            i < self.names().len(),
        ensures
            k@ == self.names()[i as int],
            self.names().no_duplicates(),
    {
        proof {
            use_type_invariant(self);
        }
        &self.keys[i]
    }

    /// The entry stored under the name at position `i` of insertion order.
    pub fn value_at(&self, i: usize) -> (v: &T)
        requires
            i < self.names().len(),
        ensures
            self@.contains_key(self.names()[i as int]),
            *v == self@[self.names()[i as int]],
    {
        proof {
            use_type_invariant(self);
        }
        proof {
            self.lemma_slot(i as int);
        }
        &self.vals[i]
    }

    fn position(&self, name: &str) -> (r: Option<usize>)
        ensures
            r matches Some(i) ==> i < self.keys@.len() && self.keys@[i as int]@ == name@,
            r is None ==> !self@.contains_key(name@),
    {
        proof {
            use_type_invariant(self);
        }
        let key: String = name.to_owned();
        let mut i: usize = 0;
        while i < self.keys.len()
            invariant
                    self.wf(),
                key@ == name@,
                i <= self.keys@.len(),
                forall|j: int| 0 <= j < i ==> self.keys@[j]@ != name@,
            decreases self.keys@.len() - i,
        {
            if self.keys[i] == key {
                return Some(i);
            }
            i += 1;
        }
        proof {
            if self@.contains_key(name@) {
                let j = choose|j: int| 0 <= j < self.keys@.len() && self.keys@[j]@ == name@;
                assert(self.keys@[j]@ == name@);
            }
        }
        None
    }

    pub fn get(&self, name: &str) -> (r: Option<&T>)
        ensures
            self@.contains_key(name@) ==> r == Some(&self@[name@]),
            !self@.contains_key(name@) ==> r is None,
    {
        proof {
            use_type_invariant(self);
        }
        match self.position(name) {
            Some(i) => {
                proof {
                    self.lemma_slot(i as int);
                }
                Some(&self.vals[i])
            },
            None => None,
        }
    }

    pub fn contains(&self, name: &str) -> (b: bool)
        ensures
            b == self@.contains_key(name@),
    {
        proof {
            use_type_invariant(self);
        }
        match self.position(name) {
            Some(i) => {
                proof {
                    self.lemma_slot(i as int);
                }
                true
            },
            None => false,
        }
    }

    pub fn insert(&mut self, name: &str, value: T)
        ensures
            final(self)@ == old(self)@.insert(name@, value),
            old(self)@.contains_key(name@) ==> final(self).names() == old(self).names(),
            !old(self)@.contains_key(name@) ==> final(self).names() == old(self).names().push(name@),
    {
        proof {
            use_type_invariant(&*self);
        }
        let pos = self.position(name);
        let mut taken: NameMap<T> = NameMap::new();
        core::mem::swap(self, &mut taken);
        proof {
            use_type_invariant(&taken);
        }
        let ghost prev = taken;
        let NameMap { mut keys, mut vals } = taken;
        match pos {
            Some(i) => {
                vals.set(i, value);
                proof {
                    assert(Seq::new(keys@.len(), |j: int| keys@[j]@) =~= prev.names());
                }
            },
            None => {
                let key: String = name.to_owned();
                keys.push(key);
                vals.push(value);
                proof {
                    let n = prev.keys@.len() as int;
                    let ns = Seq::new(keys@.len(), |j: int| keys@[j]@);
                    assert(ns =~= prev.names().push(name@));
                    assert forall|a: int, b: int|
                        0 <= a < ns.len() && 0 <= b < ns.len() && a != b implies ns[a] != ns[b] by {
                        if a == n {
                            assert(prev.names()[b] == prev.keys@[b]@);
                            prev.lemma_slot(b);
                        } else if b == n {
                            assert(prev.names()[a] == prev.keys@[a]@);
                            prev.lemma_slot(a);
                        } else {
                            assert(prev.names()[a] == ns[a]);
                            assert(prev.names()[b] == ns[b]);
                        }
                    }
                }
            },
        }
        *self = NameMap { keys, vals };
        proof {
            let n = prev.keys@.len() as int;
            assert forall|k: Seq<char>|
                #[trigger] prev@.insert(name@, value).contains_key(k) implies self@.contains_key(k) by {
                if k == name@ {
                    match pos {
                        Some(i) => {
                            self.lemma_slot(i as int);
                        },
                        None => {
                            self.lemma_slot(n);
                        },
                    }
                } else {
                    let j = choose|j: int| 0 <= j < prev.keys@.len() && prev.keys@[j]@ == k;
                    assert(self.keys@[j]@ == k);
                    self.lemma_slot(j);
                }
            }
            assert forall|k: Seq<char>| #[trigger] self@.contains_key(k) implies prev@.insert(
                name@,
                value,
            ).contains_key(k) && self@[k] == prev@.insert(name@, value)[k] by {
                let j = choose|j: int| 0 <= j < self.keys@.len() && self.keys@[j]@ == k;
                self.lemma_slot(j);
                match pos {
                    Some(i) => {
                        self.lemma_slot(i as int);
                        assert(prev.keys@[j]@ == k);
                        prev.lemma_slot(j);
                    },
                    None => {
                        if j < n {
                            assert(prev.keys@[j]@ == k);
                            prev.lemma_slot(j);
                        }
                    },
                }
            }
            assert(self@ =~= prev@.insert(name@, value));
        }
    }
}

impl<T: Clone> Clone for NameMap<T> {
    /// The same names in the same order, each with a clone of its entry.
    fn clone(&self) -> (r: Self)
        ensures
            r.names() == self.names(),
    {
        proof {
            use_type_invariant(self);
        }
        let mut keys: Vec<String> = Vec::new();
        let mut vals: Vec<T> = Vec::new();
        let mut i: usize = 0;
        while i < self.keys.len()
            invariant
                self.wf(),
                i <= self.keys@.len(),
                keys@.len() == i,
                vals@.len() == i,
                forall|j: int| 0 <= j < i ==> #[trigger] keys@[j]@ == self.keys@[j]@,
            decreases self.keys@.len() - i,
        {
            keys.push(self.keys[i].clone());
            vals.push(self.vals[i].clone());
            i += 1;
        }
        proof {
            assert(Seq::new(keys@.len(), |j: int| keys@[j]@) =~= self.names());
        }
        let r = NameMap { keys, vals };
        assert(r.names() =~= self.names());
        r
    }
}

impl<T> View for NameMap<T> {
    type V = Map<Seq<char>, T>;

    closed spec fn view(&self) -> Map<Seq<char>, T> {
        Map::new(
            |k: Seq<char>| exists|i: int| 0 <= i < self.keys@.len() && self.keys@[i]@ == k,
            |k: Seq<char>| self.vals@[self.slot(k)],
        )
    }
}

} // verus!
