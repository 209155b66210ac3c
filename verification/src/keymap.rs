use vstd::prelude::*;

verus! {

/// `m` is the map that the entry list `s` stands for, and no key occurs twice in `s`.
pub open spec fn entries_model<K: View, V>(s: Seq<(K, V)>, m: Map<K::V, V>) -> bool {
    &&& forall|i: int, j: int| 0 <= i < j < s.len() ==> (#[trigger] s[i]).0@ != (#[trigger] s[j]).0@
    &&& forall|i: int| 0 <= i < s.len() ==> m.contains_key((#[trigger] s[i]).0@) && m[s[i].0@] == s[i].1
    &&& forall|k: K::V| #[trigger]
        m.contains_key(k) ==> exists|i: int| 0 <= i < s.len() && (#[trigger] s[i]).0@ == k
    &&& m.dom().finite()
    &&& m.len() == s.len()
}

proof fn lemma_entries_push<K: View, V>(s: Seq<(K, V)>, m: Map<K::V, V>, k: K, v: V)
    requires
        entries_model(s, m),
        !m.contains_key(k@),
    ensures
        entries_model(s.push((k, v)), m.insert(k@, v)),
{
    let s2 = s.push((k, v));
    let m2 = m.insert(k@, v);
    assert forall|i: int| 0 <= i < s.len() implies s2[i] == s[i] by {}
    assert forall|i: int, j: int| 0 <= i < j < s2.len() implies (#[trigger] s2[i]).0@ != (
    #[trigger] s2[j]).0@ by {
        if j < s.len() {
            assert(s[i].0@ != s[j].0@);
        } else {
            assert(m.contains_key(s[i].0@));
        }
    }
    assert forall|key: K::V| #[trigger] m2.contains_key(key) implies exists|i: int|
        0 <= i < s2.len() && (#[trigger] s2[i]).0@ == key by {
        if key == k@ {
            assert(s2[s.len() as int].0@ == key);
        } else {
            let i = choose|i: int| 0 <= i < s.len() && (#[trigger] s[i]).0@ == key;
            assert(s2[i] == s[i]);
        }
    }
    assert(m2.dom() =~= m.dom().insert(k@));
}

proof fn lemma_entries_replace<K: View, V>(
    s: Seq<(K, V)>,
    m: Map<K::V, V>,
    i: int,
    k: K,
    v: V,
)
    requires
        entries_model(s, m),
        0 <= i < s.len(),
        s[i].0@ == k@,
    ensures
        entries_model(s.update(i, (k, v)), m.insert(k@, v)),
{
    let s2 = s.update(i, (k, v));
    let m2 = m.insert(k@, v);
    assert(m.contains_key(s[i].0@));
    assert(m2.dom() =~= m.dom());
    assert forall|a: int, b: int| 0 <= a < b < s2.len() implies (#[trigger] s2[a]).0@ != (
    #[trigger] s2[b]).0@ by {
        assert(s[a].0@ != s[b].0@);
    }
    assert forall|a: int| 0 <= a < s2.len() implies m2.contains_key((#[trigger] s2[a]).0@)
        && m2[s2[a].0@] == s2[a].1 by {
        if a != i {
            assert(s[a].0@ != s[i].0@ || a == i);
            if a < i {
                assert(s[a].0@ != s[i].0@);
            } else {
                assert(s[i].0@ != s[a].0@);
            }
        }
    }
    assert forall|key: K::V| #[trigger] m2.contains_key(key) implies exists|a: int|
        0 <= a < s2.len() && (#[trigger] s2[a]).0@ == key by {
        if key == k@ {
            assert(s2[i].0@ == key);
        } else {
            let a = choose|a: int| 0 <= a < s.len() && (#[trigger] s[a]).0@ == key;
            assert(s2[a] == s[a]);
        }
    }
}

proof fn lemma_entries_remove<K: View, V>(s: Seq<(K, V)>, m: Map<K::V, V>, i: int)
    requires
        entries_model(s, m),
        0 <= i < s.len(),
    ensures
        entries_model(s.remove(i), m.remove(s[i].0@)),
{
    let k = s[i].0@;
    let s2 = s.remove(i);
    let m2 = m.remove(k);
    assert forall|a: int| 0 <= a < s2.len() implies #[trigger] s2[a] == (if a < i {
        s[a]
    } else {
        s[a + 1]
    }) by {}
    assert forall|a: int, b: int| 0 <= a < b < s2.len() implies (#[trigger] s2[a]).0@ != (
    #[trigger] s2[b]).0@ by {
        let a0 = if a < i { a } else { a + 1 };
        let b0 = if b < i { b } else { b + 1 };
        assert(s2[a] == s[a0]);
        assert(s2[b] == s[b0]);
        assert(s[a0].0@ != s[b0].0@);
    }
    assert forall|a: int| 0 <= a < s2.len() implies m2.contains_key((#[trigger] s2[a]).0@)
        && m2[s2[a].0@] == s2[a].1 by {
        let a0 = if a < i { a } else { a + 1 };
        assert(s2[a] == s[a0]);
        if a0 < i {
            assert(s[a0].0@ != s[i].0@);
        } else {
            assert(s[i].0@ != s[a0].0@);
        }
    }
    assert forall|key: K::V| #[trigger] m2.contains_key(key) implies exists|a: int|
        0 <= a < s2.len() && (#[trigger] s2[a]).0@ == key by {
        let a0 = choose|a0: int| 0 <= a0 < s.len() && (#[trigger] s[a0]).0@ == key;
        assert(a0 != i);
        let a = if a0 < i { a0 } else { a0 - 1 };
        assert(s2[a] == s[a0]);
    }
    assert(m2.dom() =~= m.dom().remove(k));
}

/// Keys that a `KeyMap` can be keyed by: they compare and copy by their view.
pub trait MapKey: View + Sized {
    fn same_key(&self, other: &Self) -> (r: bool)
        ensures
            r == (self@ == other@),
    ;

    fn copy_key(&self) -> (r: Self)
        ensures
            r == *self,
    ;
}

impl MapKey for String {
    fn same_key(&self, other: &Self) -> (r: bool) {
        *self == *other
    }

    fn copy_key(&self) -> (r: Self) {
        self.clone()
    }
}

impl MapKey for usize {
    fn same_key(&self, other: &Self) -> (r: bool) {
        *self == *other
    }

    fn copy_key(&self) -> (r: Self) {
        *self
    }
}

/// A map keyed by strings.
pub type StrMap<V> = KeyMap<String, V>;

/// A map keyed by numbers.
pub type NumMap<V> = KeyMap<usize, V>;

/// A finite map.
///
/// The entries are kept in a vector in which no key occurs twice; the ghost
/// `model` is the mathematical map that the entries stand for.
pub struct KeyMap<K: MapKey, V> {
    entries: Vec<(K, V)>,
    model: Ghost<Map<K::V, V>>,
}

impl<K: MapKey, V> View for KeyMap<K, V> {
    type V = Map<K::V, V>;

    closed spec fn view(&self) -> Map<K::V, V> {
        self.model@
    }
}

impl<K: MapKey, V> KeyMap<K, V> {
    #[verifier::type_invariant]
    closed spec fn consistent(self) -> bool {
        entries_model(self.entries@, self.model@)
    }

    /// The empty map.
    pub fn new() -> (r: Self)
        ensures
            r@ == Map::<K::V, V>::empty(),
    {
        let r = KeyMap { entries: Vec::new(), model: Ghost(Map::empty()) };
        proof {
            assert(r.model@.dom() =~= Set::empty());
        }
        r
    }

    /// The number of keys.
    pub fn len(&self) -> (r: usize)
        ensures
            r == self@.len(),
            self@.dom().finite(),
    {
        proof {
            use_type_invariant(self);
        }
        self.entries.len()
    }

    /// The position of the entry for `k`, if there is one.
    fn find(&self, k: &K) -> (r: Option<usize>)
        ensures
            match r {
                Some(i) => i < self.entries@.len() && self.entries@[i as int].0@ == k@
                    && self@.contains_key(k@),
                None => !self@.contains_key(k@),
            },
    {
        proof {
            use_type_invariant(self);
        }
        let mut i: usize = 0;
        while i < self.entries.len()
            invariant
                i <= self.entries@.len(),
                entries_model(self.entries@, self.model@),
                forall|j: int| 0 <= j < i ==> (#[trigger] self.entries@[j]).0@ != k@,
            decreases self.entries@.len() - i,
        {
            if self.entries[i].0.same_key(k) {
                return Some(i);
            }
            i = i + 1;
        }
        proof {
            if self@.contains_key(k@) {
                let j = choose|j: int|
                    0 <= j < self.entries@.len() && (#[trigger] self.entries@[j]).0@ == k@;
                assert(self.entries@[j].0@ != k@);
            }
        }
        None
    }

    /// Whether `k` is a key of the map.
    pub fn contains_key(&self, k: &K) -> (r: bool)
        ensures
            r == self@.contains_key(k@),
    {
        match self.find(k) {
            Some(_) => true,
            None => false,
        }
    }

    /// The value stored under `k`, if any.
    pub fn get(&self, k: &K) -> (r: Option<&V>)
        ensures
            match r {
                Some(v) => self@.contains_key(k@) && *v == self@[k@],
                None => !self@.contains_key(k@),
            },
    {
        proof {
            use_type_invariant(self);
        }
        match self.find(k) {
            Some(i) => Some(&self.entries[i].1),
            None => None,
        }
    }

    /// Stores `v` under `k`, replacing what was stored there before.
    pub fn insert(&mut self, k: K, v: V)
        ensures
            final(self)@ == old(self)@.insert(k@, v),
    {
        let mut taken = KeyMap::new();
        std::mem::swap(self, &mut taken);
        proof {
            use_type_invariant(&taken);
        }
        let found = taken.find(&k);
        let KeyMap { mut entries, model } = taken;
        let ghost s = entries@;
        let ghost kv = k@;
        match found {
            Some(i) => {
                entries.remove(i);
                entries.insert(i, (k, v));
                proof {
                    lemma_entries_replace(s, model@, i as int, k, v);
                    assert(entries@ =~= s.update(i as int, (k, v)));
                }
            },
            None => {
                entries.push((k, v));
                proof {
                    lemma_entries_push(s, model@, k, v);
                }
            },
        }
        *self = KeyMap { entries, model: Ghost(model@.insert(kv, v)) };
    }

    /// Takes the entry for `k` out of the map and returns its value.
    pub fn remove(&mut self, k: &K) -> (r: Option<V>)
        ensures
            final(self)@ == old(self)@.remove(k@),
            match r {
                Some(v) => old(self)@.contains_key(k@) && v == old(self)@[k@],
                None => !old(self)@.contains_key(k@),
            },
    {
        let mut taken = KeyMap::new();
        std::mem::swap(self, &mut taken);
        proof {
            use_type_invariant(&taken);
        }
        let found = taken.find(k);
        match found {
            Some(i) => {
                let KeyMap { mut entries, model } = taken;
                let ghost s = entries@;
                let (_, v) = entries.remove(i);
                proof {
                    lemma_entries_remove(s, model@, i as int);
                }
                *self = KeyMap { entries, model: Ghost(model@.remove(k@)) };
                Some(v)
            },
            None => {
                proof {
                    assert(taken@.remove(k@) =~= taken@);
                }
                *self = taken;
                None
            },
        }
    }
    /// The keys of the map, each once.
    pub fn keys(&self) -> (r: Vec<&K>)
        ensures
            r@.len() == self@.len(),
            forall|i: int, j: int| 0 <= i < j < r@.len() ==> (#[trigger] r@[i])@ != (#[trigger] r@[j])@,
            forall|i: int| 0 <= i < r@.len() ==> self@.contains_key((#[trigger] r@[i])@),
            forall|k: K::V| #[trigger] self@.contains_key(k) ==> exists|i: int|
                0 <= i < r@.len() && (#[trigger] r@[i])@ == k,
    {
        proof {
            use_type_invariant(self);
        }
        let mut r: Vec<&K> = Vec::new();
        let mut i: usize = 0;
        while i < self.entries.len()
            invariant
                i <= self.entries@.len(),
                entries_model(self.entries@, self.model@),
                r@.len() == i,
                forall|j: int| 0 <= j < i ==> (#[trigger] r@[j])@ == self.entries@[j].0@,
            decreases self.entries@.len() - i,
        {
            r.push(&self.entries[i].0);
            i = i + 1;
        }
        proof {
            assert forall|a: int, b: int| 0 <= a < b < r@.len() implies (#[trigger] r@[a])@ != (
            #[trigger] r@[b])@ by {
                assert(self.entries@[a].0@ != self.entries@[b].0@);
            }
            assert forall|a: int| 0 <= a < r@.len() implies self@.contains_key(
                (#[trigger] r@[a])@,
            ) by {
                assert(self.model@.contains_key(self.entries@[a].0@));
            }
            assert forall|k: K::V| #[trigger] self@.contains_key(k) implies exists|a: int|
                0 <= a < r@.len() && (#[trigger] r@[a])@ == k by {
                let a = choose|a: int|
                    0 <= a < self.entries@.len() && (#[trigger] self.entries@[a]).0@ == k;
                assert(r@[a]@ == k);
            }
        }
        r
    }

    /// The entries of the map, in which no key occurs twice.
    pub fn as_entries(&self) -> (r: &Vec<(K, V)>)
        ensures
            entries_model(r@, self@),
    {
        proof {
            use_type_invariant(self);
        }
        &self.entries
    }

    /// Gives up the map as its list of entries, in which no key occurs twice.
    pub fn into_entries(self) -> (r: Vec<(K, V)>)
        ensures
            entries_model(r@, self@),
    {
        proof {
            use_type_invariant(&self);
        }
        let KeyMap { entries, model } = self;
        entries
    }
}

impl<K: MapKey, V: Clone> Clone for KeyMap<K, V> {
    /// A copy of the map, each value copied by its own `clone`.
    fn clone(&self) -> (r: Self)
        ensures
            r@.dom() == self@.dom(),
            forall|k: K::V| #[trigger] self@.contains_key(k) ==> cloned(self@[k], r@[k]),
    {
        proof {
            use_type_invariant(self);
        }
        let mut entries: Vec<(K, V)> = Vec::new();
        let ghost mut model: Map<K::V, V> = Map::empty();
        proof {
            assert(model.dom() =~= Set::empty());
        }
        let mut i: usize = 0;
        while i < self.entries.len()
            invariant
                i <= self.entries@.len(),
                entries_model(self.entries@, self.model@),
                entries_model(entries@, model),
                entries@.len() == i,
                forall|j: int|
                    0 <= j < i ==> (#[trigger] entries@[j]).0@ == self.entries@[j].0@ && cloned(
                        self.entries@[j].1,
                        entries@[j].1,
                    ),
            decreases self.entries@.len() - i,
        {
            let k = self.entries[i].0.copy_key();
            let v = self.entries[i].1.clone();
            proof {
                if model.contains_key(k@) {
                    let j = choose|j: int| 0 <= j < entries@.len() && (#[trigger] entries@[j]).0@ == k@;
                    assert(self.entries@[j].0@ != self.entries@[i as int].0@);
                }
                lemma_entries_push(entries@, model, k, v);
            }
            let ghost kv = k@;
            entries.push((k, v));
            proof {
                model = model.insert(kv, v);
            }
            i = i + 1;
        }
        proof {
            assert forall|k: K::V| self@.contains_key(k) <==> model.contains_key(k) by {
                if self@.contains_key(k) {
                    let a = choose|a: int|
                        0 <= a < self.entries@.len() && (#[trigger] self.entries@[a]).0@ == k;
                    assert(entries@[a].0@ == k);
                }
                if model.contains_key(k) {
                    let a = choose|a: int| 0 <= a < entries@.len() && (#[trigger] entries@[a]).0@ == k;
                    assert(self.entries@[a].0@ == k);
                }
            }
            assert(model.dom() =~= self@.dom());
            assert forall|k: K::V| #[trigger] self@.contains_key(k) implies cloned(
                self@[k],
                model[k],
            ) by {
                let a = choose|a: int|
                    0 <= a < self.entries@.len() && (#[trigger] self.entries@[a]).0@ == k;
                assert(entries@[a].0@ == k);
            }
        }
        KeyMap { entries, model: Ghost(model) }
    }
}

} // verus!
