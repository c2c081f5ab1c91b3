use vstd::prelude::*;

verus! {

/// A map from string keys to values that keeps its entries in the order in
/// which their keys were first inserted.  No key occurs twice.  vstd states
/// what a `HashMap` does only for keys that obey its hashing model, which
/// it grants to primitive types and not to `String`; so the entries are held
/// in a vector and found by comparing key texts.
pub struct StrMap<V> {
    entries: Vec<(String, V)>,
}

impl<V> StrMap<V> {
    /// The key of the entry at position `i`.
    pub closed spec fn key_at(self, i: int) -> Seq<char> {
        self.entries@[i].0@
    }

    /// The value of the entry at position `i`.
    pub closed spec fn value_at(self, i: int) -> V {
        self.entries@[i].1
    }

    /// The number of entries.
    pub closed spec fn size(self) -> nat {
        self.entries@.len()
    }

    /// Whether `k` is the key of some entry.
    pub open spec fn has_key(self, k: Seq<char>) -> bool {
        exists|i: int| 0 <= i < self.size() && #[trigger] self.key_at(i) == k
    }

    /// The keys in entry order.
    pub open spec fn keys(self) -> Seq<Seq<char>> {
        Seq::new(self.size(), |i: int| self.key_at(i))
    }

    /// No key occurs in two entries.
    #[verifier::type_invariant]
    pub closed spec fn wf(self) -> bool {
        forall|i: int, j: int|
            0 <= i < self.size() && 0 <= j < self.size() && i != j ==> #[trigger] self.key_at(i)
                != #[trigger] self.key_at(j)
    }

    pub open spec fn index_of(self, k: Seq<char>) -> int {
        choose|i: int| 0 <= i < self.size() && self.key_at(i) == k
    }

    /// The map that the entries describe.
    pub open spec fn view(self) -> Map<Seq<char>, V> {
        Map::new(|k: Seq<char>| self.has_key(k), |k: Seq<char>| self.value_at(self.index_of(k)))
    }

    /// Every entry is found in the map under its key, with its value.
    pub proof fn lemma_entry_in_view(self, i: int)
        requires
            self.wf(),
            0 <= i < self.size(),
        ensures
            self.view().contains_key(self.key_at(i)),
            self.view()[self.key_at(i)] == self.value_at(i),
            self.index_of(self.key_at(i)) == i,
    {
        assert(self.has_key(self.key_at(i)));
        let j = self.index_of(self.key_at(i));
        assert(self.key_at(j) == self.key_at(i));
    }

    /// The map has exactly as many keys as there are entries.
    pub proof fn lemma_view_len(self)
        requires
            self.wf(),
        ensures
            self.view().dom().finite(),
            self.view().dom().len() == self.size(),
            self.view().dom() == self.keys().to_set(),
    {
        let ks = self.keys();
        assert forall|i: int, j: int| 0 <= i < ks.len() && 0 <= j < ks.len() && i != j implies ks[i]
            != ks[j] by {
            assert(self.key_at(i) != self.key_at(j));
        }
        assert(ks.no_duplicates());
        assert forall|k: Seq<char>| self.view().dom().contains(k) <==> ks.to_set().contains(k) by {
            if self.has_key(k) {
                let i = choose|i: int| 0 <= i < self.size() && self.key_at(i) == k;
                assert(ks[i] == k);
            }
            if ks.to_set().contains(k) {
                assert(ks.contains(k));
                let i = choose|i: int| 0 <= i < ks.len() && ks[i] == k;
                assert(self.key_at(i) == k);
            }
        }
        assert(self.view().dom() =~= ks.to_set());
        ks.unique_seq_to_set();
    }

    /// An empty map.
    pub fn new() -> (r: Self)
        ensures
            r.view() == Map::<Seq<char>, V>::empty(),
            r.size() == 0,
    {
        let r = StrMap { entries: Vec::new() };
        assert(r.view() =~= Map::<Seq<char>, V>::empty());
        r
    }

    /// The number of keys.
    pub fn len(&self) -> (r: usize)
        ensures
            r == self.size(),
            r == self.view().dom().len(),
    {
        proof {
            use_type_invariant(self);
            self.lemma_view_len();
        }
        self.entries.len()
    }

    /// The position of `k` among the entries, if it is a key.
    fn position(&self, k: &str) -> (r: Option<usize>)
        ensures
            match r {
                Some(i) => i < self.size() && self.key_at(i as int) == k@,
                None => !self.has_key(k@),
            },
    {
        let mut i: usize = 0;
        while i < self.entries.len()
            invariant
                0 <= i <= self.size(),
                self.size() == self.entries@.len(),
                forall|j: int| 0 <= j < i ==> self.key_at(j) != k@,
            decreases self.entries.len() - i,
        {
            if crate::text::str_eq(self.entries[i].0.as_str(), k) {
                return Some(i);
            }
            i = i + 1;
        }
        None
    }

    /// Whether `k` is a key.
    pub fn contains_key(&self, k: &str) -> (r: bool)
        ensures
            r == self.view().contains_key(k@),
    {
        self.position(k).is_some()
    }

    /// The value under `k`, if any.
    pub fn get(&self, k: &str) -> (r: Option<&V>)
        ensures
            match r {
                Some(v) => self.view().contains_key(k@) && *v == self.view()[k@],
                None => !self.view().contains_key(k@),
            },
    {
        match self.position(k) {
            Some(i) => {
                proof {
                    use_type_invariant(self);
                    self.lemma_entry_in_view(i as int);
                }
                Some(&self.entries[i].1)
            },
            None => None,
        }
    }

    /// Sets the value under `k`; a new key is added after the existing ones,
    /// an existing key keeps its position.
    pub fn insert(&mut self, k: String, v: V)
        ensures
            final(self).view() == old(self).view().insert(k@, v),
            old(self).has_key(k@) ==> final(self).keys() == old(self).keys(),
            !old(self).has_key(k@) ==> final(self).keys() == old(self).keys().push(k@),
    {
        proof {
            use_type_invariant(&*self);
        }
        let ghost old_self = *self;
        match self.position(k.as_str()) {
            Some(i) => {
                let ghost kv = k@;
                let mut entries: Vec<(String, V)> = Vec::new();
                std::mem::swap(&mut entries, &mut self.entries);
                entries.set(i, (k, v));
                let ghost new_self = StrMap { entries: entries };
                proof {
                    assert forall|j: int| 0 <= j < new_self.size() implies #[trigger] new_self.key_at(j)
                        == old_self.key_at(j) by {}
                    assert(new_self.keys() =~= old_self.keys());
                    assert(new_self.wf()) by {
                        assert forall|a: int, b: int|
                            0 <= a < new_self.size() && 0 <= b < new_self.size() && a != b implies #[trigger] new_self.key_at(a)
                            != #[trigger] new_self.key_at(b) by {
                            assert(old_self.key_at(a) != old_self.key_at(b));
                        }
                    }
                    assert forall|key: Seq<char>|
                        #[trigger] new_self.view().contains_key(key) == old_self.view().insert(
                            kv,
                            v,
                        ).contains_key(key) by {
                        if old_self.has_key(key) {
                            let j = choose|j: int| 0 <= j < old_self.size() && old_self.key_at(j) == key;
                            assert(new_self.key_at(j) == key);
                        }
                        if new_self.has_key(key) {
                            let j = choose|j: int| 0 <= j < new_self.size() && new_self.key_at(j) == key;
                            assert(old_self.key_at(j) == key);
                        }
                    }
                    assert forall|key: Seq<char>| #[trigger] new_self.view().contains_key(key) implies new_self.view()[key]
                        == old_self.view().insert(kv, v)[key] by {
                        let j = choose|j: int| 0 <= j < new_self.size() && new_self.key_at(j) == key;
                        new_self.lemma_entry_in_view(j);
                        if key != kv {
                            old_self.lemma_entry_in_view(j);
                        }
                    }
                    assert(new_self.view() =~= old_self.view().insert(kv, v));
                }
                self.entries = entries;
            },
            None => {
                let ghost kv = k@;
                let mut entries: Vec<(String, V)> = Vec::new();
                std::mem::swap(&mut entries, &mut self.entries);
                entries.push((k, v));
                let ghost new_self = StrMap { entries: entries };
                proof {
                    let n = old_self.size() as int;
                    assert forall|j: int| 0 <= j < n implies #[trigger] new_self.key_at(j)
                        == old_self.key_at(j) by {}
                    assert(new_self.key_at(n) == kv);
                    assert(new_self.keys() =~= old_self.keys().push(kv));
                    assert(new_self.wf()) by {
                        assert forall|a: int, b: int|
                            0 <= a < new_self.size() && 0 <= b < new_self.size() && a != b implies #[trigger] new_self.key_at(a)
                            != #[trigger] new_self.key_at(b) by {
                            if a < n && b < n {
                                assert(old_self.key_at(a) != old_self.key_at(b));
                            } else if a == n {
                                assert(new_self.key_at(b) == old_self.key_at(b));
                            } else {
                                assert(new_self.key_at(a) == old_self.key_at(a));
                            }
                        }
                    }
                    assert forall|key: Seq<char>|
                        #[trigger] new_self.view().contains_key(key) == old_self.view().insert(
                            kv,
                            v,
                        ).contains_key(key) by {
                        if old_self.has_key(key) {
                            let j = choose|j: int| 0 <= j < old_self.size() && old_self.key_at(j) == key;
                            assert(new_self.key_at(j) == key);
                        }
                        if key == kv {
                            assert(new_self.key_at(n) == key);
                        }
                        if new_self.has_key(key) && key != kv {
                            let j = choose|j: int| 0 <= j < new_self.size() && new_self.key_at(j) == key;
                            assert(old_self.key_at(j) == key);
                        }
                    }
                    assert forall|key: Seq<char>| #[trigger] new_self.view().contains_key(key) implies new_self.view()[key]
                        == old_self.view().insert(kv, v)[key] by {
                        let j = choose|j: int| 0 <= j < new_self.size() && new_self.key_at(j) == key;
                        new_self.lemma_entry_in_view(j);
                        if key != kv {
                            old_self.lemma_entry_in_view(j);
                        }
                    }
                    assert(new_self.view() =~= old_self.view().insert(kv, v));
                }
                self.entries = entries;
            },
        }
    }

    /// Whether the map has no key.
    pub fn is_empty(&self) -> (r: bool)
        ensures
            r == (self.view().dom().len() == 0),
    {
        self.len() == 0
    }

    /// The number of entries, for walking them in order.
    pub fn entry_count(&self) -> (r: usize)
        ensures
            r == self.size(),
    {
        self.entries.len()
    }

    /// The key and value of the entry at position `i`.
    pub fn entry(&self, i: usize) -> (r: (&String, &V))
        requires
            i < self.size(),
        ensures
            r.0@ == self.key_at(i as int),
            *r.1 == self.value_at(i as int),
            self.view().contains_key(r.0@),
            self.view()[r.0@] == *r.1,
    {
        proof {
            use_type_invariant(self);
            self.lemma_entry_in_view(i as int);
        }
        (&self.entries[i].0, &self.entries[i].1)
    }
}

} // verus!

verus! {

impl StrMap<String> {
    /// A copy of the map, with the same entries in the same order.
    pub fn duplicate(&self) -> (r: Self)
        ensures
            r.view() == self.view(),
            r.keys() == self.keys(),
    {
        proof {
            use_type_invariant(self);
        }
        let mut v: Vec<(String, String)> = Vec::new();
        let mut i: usize = 0;
        while i < self.entries.len()
            invariant
                0 <= i <= self.entries@.len(),
                v@ == self.entries@.take(i as int),
            decreases self.entries.len() - i,
        {
            let k = self.entries[i].0.clone();
            let x = self.entries[i].1.clone();
            assert(k == self.entries@[i as int].0);
            assert(x == self.entries@[i as int].1);
            v.push((k, x));
            assert(self.entries@.take(i + 1) =~= self.entries@.take(i as int).push(self.entries@[i as int]));
            i = i + 1;
        }
        assert(self.entries@.take(self.entries@.len() as int) =~= self.entries@);
        assert(v@ == self.entries@);
        proof {
            use_type_invariant(self);
        }
        let ghost g = StrMap { entries: v };
        assert(g.entries@ == self.entries@);
        assert(forall|j: int| #![auto] 0 <= j < g.size() ==> g.key_at(j) == self.key_at(j));
        assert(g.size() == self.size());
        assert(g.wf());
        let r = StrMap { entries: v };
        assert(r.view() =~= self.view());
        assert(r.keys() =~= self.keys());
        r
    }
}

} // verus!
