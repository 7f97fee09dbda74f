//! An insertion-ordered table keyed by strings.
//!
//! Records of the ledger (accounts, providers, nodes, tasks, token
//! definitions, contracts) are kept in tables: at most one value per key,
//! and a walk over a table visits its entries in the order in which their
//! keys were first inserted.
use vstd::prelude::*;

verus! {

/// A map from string keys to values that remembers insertion order.
#[derive(Debug)]
pub struct Table<V> {
    keys: Vec<String>,
    values: Vec<V>,
}

impl<V> Table<V> {
    /// The keys, in insertion order.
    pub closed spec fn key_seq(&self) -> Seq<Seq<char>> {
        self.keys@.map_values(|k: String| k@)
    }

    /// The values, in the order of their keys.
    pub closed spec fn value_seq(&self) -> Seq<V> {
        self.values@
    }

    /// Every table is well formed: one value per key, no key twice.
    pub closed spec fn wf(&self) -> bool {
        &&& self.keys@.len() == self.values@.len()
        &&& self.key_seq().no_duplicates()
    }

    /// The contents of the table as a map.
    pub open spec fn view(&self) -> Map<Seq<char>, V> {
        Map::new(
            |k: Seq<char>| self.key_seq().contains(k),
            |k: Seq<char>| self.value_seq()[self.key_seq().index_of(k)],
        )
    }

    pub proof fn lemma_lengths(&self)
        requires
            self.wf(),
        ensures
            self.key_seq().len() == self.value_seq().len(),
            self.key_seq().no_duplicates(),
    {
    }

    /// Two tables with the same keys have the same domain, and each key
    /// finds in both the values at one same position.
    pub proof fn lemma_same_keys(a: &Self, b: &Self)
        requires
            a.key_seq() == b.key_seq(),
            a.value_seq().len() == b.value_seq().len(),
            a.key_seq().len() == a.value_seq().len(),
        ensures
            a@.dom() == b@.dom(),
            forall|k: Seq<char>| #[trigger]
                a@.contains_key(k) ==> {
                    let i = a.key_seq().index_of(k);
                    &&& 0 <= i < a.value_seq().len()
                    &&& a@[k] == a.value_seq()[i]
                    &&& b@[k] == b.value_seq()[i]
                },
    {
        assert(a@.dom() =~= b@.dom());
        assert forall|k: Seq<char>| #[trigger] a@.contains_key(k) implies {
            let i = a.key_seq().index_of(k);
            &&& 0 <= i < a.value_seq().len()
            &&& a@[k] == a.value_seq()[i]
            &&& b@[k] == b.value_seq()[i]
        } by {
            assert(a.key_seq().contains(k));
        }
    }

    /// Looking up the key stored at a position gives the value at that position.
    pub proof fn lemma_view_at(&self, i: int)
        requires
            self.wf(),
            0 <= i < self.key_seq().len(),
        ensures
            self@.contains_key(self.key_seq()[i]),
            self@[self.key_seq()[i]] == self.value_seq()[i],
    {
        let k = self.key_seq()[i];
        assert(self.key_seq().contains(k));
        let j = self.key_seq().index_of(k);
        assert(self.key_seq()[j] == k);
        assert(i == j);
    }

    /// The domain of the view is the set of stored keys.
    pub proof fn lemma_dom(&self)
        requires
            self.wf(),
        ensures
            self@.dom() == self.key_seq().to_set(),
            self@.dom().finite(),
            self@.dom().len() == self.key_seq().len(),
    {
        assert(self@.dom() =~= self.key_seq().to_set());
        self.key_seq().unique_seq_to_set();
    }

    pub fn new() -> (t: Self)
        ensures
            t.wf(),
            t@ == Map::<Seq<char>, V>::empty(),
            t.key_seq() == Seq::<Seq<char>>::empty(),
    {
        let t = Table { keys: Vec::new(), values: Vec::new() };
        assert(t.key_seq() =~= Seq::<Seq<char>>::empty());
        assert(t@ =~= Map::<Seq<char>, V>::empty());
        t
    }

    pub fn len(&self) -> (n: usize)
        requires
            self.wf(),
        ensures
            n == self.key_seq().len(),
            n == self.value_seq().len(),
    {
        self.keys.len()
    }

    /// The key stored at position `i`.
    pub fn key_at(&self, i: usize) -> (k: &String)
        requires
            self.wf(),
            i < self.key_seq().len(),
        ensures
            k@ == self.key_seq()[i as int],
    {
        &self.keys[i]
    }

    /// The value stored at position `i`.
    pub fn value_at(&self, i: usize) -> (v: &V)
        requires
            self.wf(),
            i < self.key_seq().len(),
        ensures
            *v == self.value_seq()[i as int],
    {
        &self.values[i]
    }

    /// The position of `key`, if it is stored.
    pub fn position(&self, key: &str) -> (r: Option<usize>)
        requires
            self.wf(),
        ensures
            r is None <==> !self@.contains_key(key@),
            r matches Some(i) ==> i < self.key_seq().len() && self.key_seq()[i as int] == key@
                && self@[key@] == self.value_seq()[i as int],
    {
        let n = self.keys.len();
        let mut i: usize = 0;
        while i < n
            invariant
                self.wf(),
                n == self.key_seq().len(),
                i <= n,
                forall|j: int| 0 <= j < i ==> self.key_seq()[j] != key@,
            decreases n - i,
        {
            let k: &str = self.keys[i].as_str();
            if str_eq(k, key) {
                proof {
                    self.lemma_view_at(i as int);
                }
                return Some(i);
            }
            i = i + 1;
        }
        proof {
            if self.key_seq().contains(key@) {
                let j = self.key_seq().index_of(key@);
                assert(self.key_seq()[j] == key@);
            }
        }
        None
    }

    pub fn contains_key(&self, key: &str) -> (b: bool)
        requires
            self.wf(),
        ensures
            b == self@.contains_key(key@),
    {
        self.position(key).is_some()
    }

    pub fn get(&self, key: &str) -> (r: Option<&V>)
        requires
            self.wf(),
        ensures
            r is Some <==> self@.contains_key(key@),
            r matches Some(v) ==> *v == self@[key@],
    {
        match self.position(key) {
            Some(i) => Some(&self.values[i]),
            None => None,
        }
    }

    /// Replacing the value at one position changes the view at that key only.
    proof fn lemma_update(a: &Self, b: &Self, i: int, v: V)
        requires
            a.wf(),
            0 <= i < a.key_seq().len(),
            b.keys@ == a.keys@,
            b.values@ == a.values@.update(i, v),
        ensures
            b.wf(),
            b.key_seq() == a.key_seq(),
            b@ == a@.insert(a.key_seq()[i], v),
    {
        let k = a.key_seq()[i];
        assert(b.key_seq() =~= a.key_seq());
        assert forall|key: Seq<char>| #[trigger] b@.contains_key(key) implies b@[key] == a@.insert(
            k,
            v,
        )[key] by {
            let j = b.key_seq().index_of(key);
            assert(b.key_seq()[j] == key);
            if key == k {
                a.lemma_view_at(i);
                assert(j == i);
            } else {
                assert(j != i);
                let oj = a.key_seq().index_of(key);
                assert(a.key_seq()[oj] == key);
                assert(oj == j);
            }
        }
        assert(b@ =~= a@.insert(k, v));
    }

    /// Replaces the value at position `i`, keeping its key and its place.
    pub fn set_at(&mut self, i: usize, v: V)
        requires
            old(self).wf(),
            i < old(self).key_seq().len(),
        ensures
            final(self).wf(),
            final(self).key_seq() == old(self).key_seq(),
            final(self).value_seq() == old(self).value_seq().update(i as int, v),
            final(self)@ == old(self)@.insert(old(self).key_seq()[i as int], v),
    {
        self.values.set(i, v);
        proof {
            Self::lemma_update(old(self), self, i as int, v);
        }
    }

    /// Puts `v` at position `i` and hands back the value that was there.
    pub fn replace_at(&mut self, i: usize, v: V) -> (previous: V)
        requires
            old(self).wf(),
            i < old(self).key_seq().len(),
        ensures
            previous == old(self).value_seq()[i as int],
            final(self).wf(),
            final(self).key_seq() == old(self).key_seq(),
            final(self).value_seq() == old(self).value_seq().update(i as int, v),
            final(self)@ == old(self)@.insert(old(self).key_seq()[i as int], v),
    {
        let mut slot = v;
        self.values.set_and_swap(i, &mut slot);
        proof {
            Self::lemma_update(old(self), self, i as int, v);
        }
        slot
    }

    /// Inserts `v` under `key`: a stored key keeps its place, a new key goes last.
    pub fn insert(&mut self, key: String, v: V)
        requires
            old(self).wf(),
        ensures
            final(self).wf(),
            final(self)@ == old(self)@.insert(key@, v),
            old(self)@.contains_key(key@) ==> final(self).key_seq() == old(self).key_seq(),
            !old(self)@.contains_key(key@) ==> final(self).key_seq() == old(self).key_seq().push(
                key@,
            ),
    {
        match self.position(key.as_str()) {
            Some(i) => {
                self.set_at(i, v);
            },
            None => {
                let ghost k = key@;
                self.keys.push(key);
                self.values.push(v);
                proof {
                    assert(self.key_seq() =~= old(self).key_seq().push(k));
                    assert(!old(self).key_seq().contains(k));
                    assert forall|a: int, b: int|
                        0 <= a < self.key_seq().len() && 0 <= b < self.key_seq().len() && a != b
                            implies self.key_seq()[a] != self.key_seq()[b] by {
                        if a < old(self).key_seq().len() && b < old(self).key_seq().len() {
                        } else if a < old(self).key_seq().len() {
                            assert(old(self).key_seq()[a] == self.key_seq()[a]);
                        } else {
                            assert(old(self).key_seq()[b] == self.key_seq()[b]);
                        }
                    }
                    let n = old(self).key_seq().len() as int;
                    self.lemma_view_at(n);
                    assert forall|key2: Seq<char>| #[trigger] self@.contains_key(key2) implies self@[key2]
                        == old(self)@.insert(k, v)[key2] by {
                        if key2 != k {
                            let oj = old(self).key_seq().index_of(key2);
                            assert(self.key_seq().contains(key2));
                            assert(old(self).key_seq().contains(key2)) by {
                                let j = self.key_seq().index_of(key2);
                                assert(self.key_seq()[j] == key2);
                                assert(j != n);
                                assert(old(self).key_seq()[j] == key2);
                            }
                            assert(old(self).key_seq()[oj] == key2);
                            assert(self.key_seq()[oj] == key2);
                            self.lemma_view_at(oj);
                            old(self).lemma_view_at(oj);
                        }
                    }
                    assert forall|key2: Seq<char>| #[trigger] old(self)@.contains_key(key2)
                        implies self@.contains_key(key2) by {
                        let oj = old(self).key_seq().index_of(key2);
                        assert(old(self).key_seq()[oj] == key2);
                        assert(self.key_seq()[oj] == key2);
                    }
                    assert forall|key2: Seq<char>| #[trigger] self@.contains_key(key2) && key2 != k
                        implies old(self)@.contains_key(key2) by {
                        let j = self.key_seq().index_of(key2);
                        assert(self.key_seq()[j] == key2);
                        assert(old(self).key_seq()[j] == key2);
                    }
                    assert(self@ =~= old(self)@.insert(k, v));
                }
            },
        }
    }
}

impl<V: Clone> Clone for Table<V> {
    /// A table with the same keys, in the same order, each value cloned.
    fn clone(&self) -> (r: Self)
        ensures
            r.key_seq() == self.key_seq(),
            r.value_seq().len() == self.value_seq().len(),
            forall|i: int|
                0 <= i < self.value_seq().len() ==> cloned::<V>(
                    self.value_seq()[i],
                    #[trigger] r.value_seq()[i],
                ),
            self.wf() ==> r.wf(),
    {
        let keys = self.keys.clone();
        let values = self.values.clone();
        proof {
            assert forall|i: int| 0 <= i < keys@.len() implies keys@[i] == self.keys@[i] by {
                assert(cloned::<String>(self.keys@[i], keys@[i]));
            }
            assert(keys@ =~= self.keys@);
        }
        let r = Table { keys, values };
        proof {
            assert(r.key_seq() =~= self.key_seq());
        }
        r
    }
}

/// Compares two strings by their characters.
pub(crate) fn str_eq(a: &str, b: &str) -> (r: bool)
    ensures
        r == (a@ == b@),
{
    let n = a.unicode_len();
    if n != b.unicode_len() {
        return false;
    }
    let mut i: usize = 0;
    while i < n
        invariant
            n == a@.len(),
            n == b@.len(),
            i <= n,
            forall|j: int| 0 <= j < i ==> a@[j] == b@[j],
        decreases n - i,
    {
        if a.get_char(i) != b.get_char(i) {
            return false;
        }
        i = i + 1;
    }
    proof {
        assert(a@ =~= b@);
    }
    true
}

} // verus!
