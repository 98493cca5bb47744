//! A table keyed by strings that keeps its keys in the order in which they
//! were first inserted.
use vstd::prelude::*;

verus! {

/// One row of a [`StrMap`].
pub struct Entry<V> {
    pub key: String,
    pub value: V,
}

/// A map from strings to values, held as a vector of rows with distinct keys.
/// Its view is the map of the key's characters to the value; `key_seq` gives
/// the keys in the order of the rows.
pub struct StrMap<V> {
    entries: Vec<Entry<V>>,
    m: Ghost<Map<Seq<char>, V>>,
}

impl<V> View for StrMap<V> {
    type V = Map<Seq<char>, V>;

    closed spec fn view(&self) -> Map<Seq<char>, V> {
        self.m@
    }
}

impl<V> StrMap<V> {
    /// The keys, in row order.
    pub closed spec fn key_seq(&self) -> Seq<Seq<char>> {
        self.entries@.map_values(|e: Entry<V>| e.key@)
    }

    /// The rows have distinct keys and hold exactly the pairs of the view.
    pub closed spec fn wf(&self) -> bool {
        &&& forall|i: int, j: int|
            0 <= i < j < self.entries@.len() ==> (#[trigger] self.entries@[i]).key@
                != (#[trigger] self.entries@[j]).key@
        &&& forall|i: int|
            0 <= i < self.entries@.len() ==> self.m@.contains_key((#[trigger] self.entries@[i]).key@)
                && self.m@[self.entries@[i].key@] == self.entries@[i].value
        &&& forall|k: Seq<char>|
            #[trigger] self.m@.contains_key(k) ==> exists|i: int|
                0 <= i < self.entries@.len() && (#[trigger] self.entries@[i]).key@ == k
    }

    /// The keys of the rows are those of the view, each once.
    pub proof fn lemma_keys(&self)
        requires
            self.wf(),
        ensures
            self.key_seq().no_duplicates(),
            forall|k: Seq<char>| #[trigger] self@.contains_key(k) <==> self.key_seq().contains(k),
            forall|i: int|
                0 <= i < self.key_seq().len() ==> #[trigger] self@.contains_key(self.key_seq()[i]),
            self@.dom() == self.key_seq().to_set(),
            self@.len() == self.key_seq().len(),
    {
        assert forall|k: Seq<char>| #[trigger] self@.contains_key(k) <==> self.key_seq().contains(k) by {
            if self@.contains_key(k) {
                let i = choose|i: int| 0 <= i < self.entries@.len() && (#[trigger] self.entries@[i]).key@ == k;
                assert(self.key_seq()[i] == k);
            }
            if self.key_seq().contains(k) {
                let i = choose|i: int| 0 <= i < self.key_seq().len() && self.key_seq()[i] == k;
                assert(self.entries@[i].key@ == k);
            }
        }
        assert forall|i: int, j: int|
            0 <= i < self.key_seq().len() && 0 <= j < self.key_seq().len() && i != j implies
            self.key_seq()[i] != self.key_seq()[j] by {
            if i < j {
                assert(self.entries@[i].key@ != self.entries@[j].key@);
            } else {
                assert(self.entries@[j].key@ != self.entries@[i].key@);
            }
        }
        assert(self@.dom() =~= self.key_seq().to_set());
        self.key_seq().unique_seq_to_set();
    }

    /// An empty table.
    pub fn new() -> (r: Self)
        ensures
            r.wf(),
            r@ == Map::<Seq<char>, V>::empty(),
            r.key_seq() == Seq::<Seq<char>>::empty(),
    {
        let r = StrMap { entries: Vec::new(), m: Ghost(Map::empty()) };
        assert(r.key_seq() =~= Seq::<Seq<char>>::empty());
        r
    }

    /// The number of rows.
    pub fn len(&self) -> (r: usize)
        ensures
            r == self.key_seq().len(),
    {
        self.entries.len()
    }

    /// The row that holds `k`, if any.
    pub fn find(&self, k: &str) -> (r: Option<usize>)
        requires
            self.wf(),
        ensures
            match r {
                Some(i) => i < self.key_seq().len() && self.key_seq()[i as int] == k@ && self@.contains_key(k@),
                None => !self@.contains_key(k@),
            },
    {
        let key = k.to_owned();
        let mut i: usize = 0;
        while i < self.entries.len()
            invariant
                self.wf(),
                key@ == k@,
                i <= self.entries@.len(),
                forall|j: int| 0 <= j < i ==> (#[trigger] self.entries@[j]).key@ != k@,
            decreases self.entries@.len() - i,
        {
            if self.entries[i].key == key {
                return Some(i);
            }
            i = i + 1;
        }
        None
    }

    /// Whether `k` has a row.
    pub fn contains_key(&self, k: &str) -> (r: bool)
        requires
            self.wf(),
        ensures
            r == self@.contains_key(k@),
    {
        self.find(k).is_some()
    }

    /// The value stored under `k`, if any.
    pub fn get(&self, k: &str) -> (r: Option<&V>)
        requires
            self.wf(),
        ensures
            match r {
                Some(v) => self@.contains_key(k@) && *v == self@[k@],
                None => !self@.contains_key(k@),
            },
    {
        match self.find(k) {
            Some(i) => Some(&self.entries[i].value),
            None => None,
        }
    }

    /// The key of row `i`.
    pub fn key_at(&self, i: usize) -> (r: &String)
        requires
            i < self.key_seq().len(),
        ensures
            r@ == self.key_seq()[i as int],
    {
        &self.entries[i].key
    }

    /// The value of row `i`.
    pub fn value_at(&self, i: usize) -> (r: &V)
        requires
            self.wf(),
            i < self.key_seq().len(),
        ensures
            self@.contains_key(self.key_seq()[i as int]),
            *r == self@[self.key_seq()[i as int]],
    {
        &self.entries[i].value
    }

    /// Stores `v` under `k`. A key already present keeps its row and the old
    /// value is returned; a new key gets a row at the end.
    pub fn insert(&mut self, k: String, v: V) -> (r: Option<V>)
        requires
            old(self).wf(),
        ensures
            final(self).wf(),
            final(self)@ == old(self)@.insert(k@, v),
            old(self)@.contains_key(k@) ==> r == Some(old(self)@[k@]) && final(self).key_seq() == old(self).key_seq(),
            !old(self)@.contains_key(k@) ==> r.is_none() && final(self).key_seq() == old(self).key_seq().push(k@),
    {
        let ghost kv = k@;
        match self.find(k.as_str()) {
            Some(i) => {
                let e = self.entries.remove(i);
                self.entries.insert(i, Entry { key: e.key, value: v });
                self.m = Ghost(self.m@.insert(kv, v));
                assert(self.entries@ == old(self).entries@.update(i as int, Entry { key: e.key, value: v }));
                assert forall|j: int| 0 <= j < self.entries@.len() implies self.m@.contains_key(
                    (#[trigger] self.entries@[j]).key@,
                ) && self.m@[self.entries@[j].key@] == self.entries@[j].value by {
                    if j != i {
                        assert(old(self).entries@[j].key@ != kv);
                    }
                }
                assert forall|q: Seq<char>| #[trigger] self.m@.contains_key(q) implies exists|j: int|
                    0 <= j < self.entries@.len() && (#[trigger] self.entries@[j]).key@ == q by {
                    if q != kv {
                        let j = choose|j: int|
                            0 <= j < old(self).entries@.len() && (#[trigger] old(self).entries@[j]).key@ == q;
                        assert(self.entries@[j].key@ == q);
                    } else {
                        assert(self.entries@[i as int].key@ == q);
                    }
                }
                assert(self.key_seq() =~= old(self).key_seq());
                Some(e.value)
            },
            None => {
                self.entries.push(Entry { key: k, value: v });
                self.m = Ghost(self.m@.insert(kv, v));
                let ghost n = old(self).entries@.len() as int;
                assert forall|q: Seq<char>| #[trigger] self.m@.contains_key(q) implies exists|j: int|
                    0 <= j < self.entries@.len() && (#[trigger] self.entries@[j]).key@ == q by {
                    if q != kv {
                        let j = choose|j: int|
                            0 <= j < old(self).entries@.len() && (#[trigger] old(self).entries@[j]).key@ == q;
                        assert(self.entries@[j].key@ == q);
                    } else {
                        assert(self.entries@[n].key@ == q);
                    }
                }
                assert forall|j: int| 0 <= j < self.entries@.len() implies self.m@.contains_key(
                    (#[trigger] self.entries@[j]).key@,
                ) && self.m@[self.entries@[j].key@] == self.entries@[j].value by {
                    if j < n {
                        assert(old(self).m@.contains_key(old(self).entries@[j].key@));
                    }
                }
                assert(self.key_seq() =~= old(self).key_seq().push(kv));
                None
            },
        }
    }

    /// Replaces the value stored under an existing key `k`, keeping its row,
    /// and returns the old value; a missing key changes nothing.
    pub fn update(&mut self, k: &str, v: V) -> (r: Option<V>)
        requires
            old(self).wf(),
        ensures
            final(self).wf(),
            final(self).key_seq() == old(self).key_seq(),
            old(self)@.contains_key(k@) ==> r == Some(old(self)@[k@]) && final(self)@ == old(self)@.insert(k@, v),
            !old(self)@.contains_key(k@) ==> r.is_none() && *final(self) == *old(self),
    {
        match self.find(k) {
            Some(i) => {
                let e = self.entries.remove(i);
                self.entries.insert(i, Entry { key: e.key, value: v });
                self.m = Ghost(self.m@.insert(k@, v));
                assert(self.entries@ == old(self).entries@.update(i as int, Entry { key: e.key, value: v }));
                assert forall|j: int| 0 <= j < self.entries@.len() implies self.m@.contains_key(
                    (#[trigger] self.entries@[j]).key@,
                ) && self.m@[self.entries@[j].key@] == self.entries@[j].value by {
                    if j != i {
                        assert(old(self).entries@[j].key@ != k@);
                    }
                }
                assert forall|q: Seq<char>| #[trigger] self.m@.contains_key(q) implies exists|j: int|
                    0 <= j < self.entries@.len() && (#[trigger] self.entries@[j]).key@ == q by {
                    if q != k@ {
                        let j = choose|j: int|
                            0 <= j < old(self).entries@.len() && (#[trigger] old(self).entries@[j]).key@ == q;
                        assert(self.entries@[j].key@ == q);
                    } else {
                        assert(self.entries@[i as int].key@ == q);
                    }
                }
                assert(self.key_seq() =~= old(self).key_seq());
                Some(e.value)
            },
            None => None,
        }
    }

    /// Removes the row of `k`, if any, and returns its value; the other rows
    /// keep their order.
    pub fn remove(&mut self, k: &str) -> (r: Option<V>)
        requires
            old(self).wf(),
        ensures
            final(self).wf(),
            final(self)@ == old(self)@.remove(k@),
            old(self)@.contains_key(k@) ==> r == Some(old(self)@[k@]),
            !old(self)@.contains_key(k@) ==> r.is_none() && *final(self) == *old(self),
    {
        match self.find(k) {
            Some(i) => {
                let e = self.entries.remove(i);
                self.m = Ghost(self.m@.remove(k@));
                assert forall|j: int| 0 <= j < self.entries@.len() implies self.m@.contains_key(
                    (#[trigger] self.entries@[j]).key@,
                ) && self.m@[self.entries@[j].key@] == self.entries@[j].value by {
                    if j < i {
                        assert(old(self).entries@[j].key@ != old(self).entries@[i as int].key@);
                        assert(old(self).m@.contains_key(old(self).entries@[j].key@));
                    } else {
                        assert(old(self).entries@[i as int].key@ != old(self).entries@[j + 1].key@);
                        assert(old(self).m@.contains_key(old(self).entries@[j + 1].key@));
                    }
                }
                assert forall|q: Seq<char>| #[trigger] self.m@.contains_key(q) implies exists|j: int|
                    0 <= j < self.entries@.len() && (#[trigger] self.entries@[j]).key@ == q by {
                    let j = choose|j: int|
                        0 <= j < old(self).entries@.len() && (#[trigger] old(self).entries@[j]).key@ == q;
                    if j < i {
                        assert(self.entries@[j].key@ == q);
                    } else {
                        assert(j != i);
                        assert(self.entries@[j - 1].key@ == q);
                    }
                }
                assert forall|a: int, b: int|
                    0 <= a < b < self.entries@.len() implies (#[trigger] self.entries@[a]).key@
                    != (#[trigger] self.entries@[b]).key@ by {
                    let a0 = if a < i { a } else { a + 1 };
                    let b0 = if b < i { b } else { b + 1 };
                    assert(old(self).entries@[a0].key@ != old(self).entries@[b0].key@);
                }
                Some(e.value)
            },
            None => {
                assert(self.m@.remove(k@) =~= self.m@);
                None
            },
        }
    }

    /// Removes every row.
    pub fn clear(&mut self)
        ensures
            final(self).wf(),
            final(self)@ == Map::<Seq<char>, V>::empty(),
            final(self).key_seq() == Seq::<Seq<char>>::empty(),
    {
        self.entries.clear();
        self.m = Ghost(Map::empty());
        assert(self.key_seq() =~= Seq::<Seq<char>>::empty());
    }
}

impl<V: Copy> StrMap<V> {
    /// A copy of the table, with the same rows in the same order.
    pub fn duplicate(&self) -> (r: Self)
        requires
            self.wf(),
        ensures
            r.wf(),
            r@ == self@,
            r.key_seq() == self.key_seq(),
    {
        let mut entries: Vec<Entry<V>> = Vec::new();
        let mut i: usize = 0;
        while i < self.entries.len()
            invariant
                i <= self.entries@.len(),
                entries@.len() == i,
                forall|j: int|
                    0 <= j < i ==> (#[trigger] entries@[j]).key@ == self.entries@[j].key@ && entries@[j].value
                        == self.entries@[j].value,
            decreases self.entries@.len() - i,
        {
            let e = &self.entries[i];
            entries.push(Entry { key: e.key.clone(), value: e.value });
            i = i + 1;
        }
        let r = StrMap { entries, m: Ghost(self.m@) };
        assert(r.key_seq() =~= self.key_seq());
        assert forall|a: int, b: int|
            0 <= a < b < r.entries@.len() implies (#[trigger] r.entries@[a]).key@ != (#[trigger] r.entries@[b]).key@ by {
            assert(self.entries@[a].key@ != self.entries@[b].key@);
        }
        assert forall|q: Seq<char>| #[trigger] r.m@.contains_key(q) implies exists|j: int|
            0 <= j < r.entries@.len() && (#[trigger] r.entries@[j]).key@ == q by {
            let j = choose|j: int| 0 <= j < self.entries@.len() && (#[trigger] self.entries@[j]).key@ == q;
            assert(r.entries@[j].key@ == q);
        }
        r
    }
}

} // verus!

verus! {

/// Whether two strings have the same characters.
pub fn str_eq(a: &str, b: &str) -> (r: bool)
    ensures
        r == (a@ == b@),
{
    a.to_owned() == b.to_owned()
}

} // verus!
