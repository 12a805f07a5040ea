use vstd::prelude::*;

verus! {

/// A map from strings to values, kept as a list of entries in insertion order.
///
/// No key occurs twice. Contracts speak of the map through its view, a
/// `Map` from a key's characters to its value; `key_seq` and `value_seq`
/// give the entries in storage order for code that walks them.
pub struct StringMap<V> {
    keys: Vec<String>,
    values: Vec<V>,
}

impl<V> StringMap<V> {
    /// The keys in storage order.
    pub closed spec fn key_seq(&self) -> Seq<Seq<char>> {
        Seq::new(self.keys.len() as nat, |i: int| self.keys[i]@)
    }

    /// The values in storage order; `value_seq()[i]` belongs to `key_seq()[i]`.
    pub closed spec fn value_seq(&self) -> Seq<V> {
        self.values@
    }

    /// Every key has one value and no key occurs twice.
    pub open spec fn wf(&self) -> bool {
        &&& self.key_seq().len() == self.value_seq().len()
        &&& self.key_seq().no_duplicates()
    }

    pub open spec fn view(&self) -> Map<Seq<char>, V> {
        Map::new(
            |k: Seq<char>| self.key_seq().contains(k),
            |k: Seq<char>| self.value_seq()[self.key_seq().index_of(k)],
        )
    }

    /// In a well-formed map the entry at position `i` is the view's entry for its key.
    pub proof fn lemma_entry(&self, i: int)
        requires
            self.wf(),
            0 <= i < self.key_seq().len(),
        ensures
            self@.contains_key(self.key_seq()[i]),
            self@[self.key_seq()[i]] == self.value_seq()[i],
            self.key_seq().index_of(self.key_seq()[i]) == i,
    {
        let k = self.key_seq()[i];
        assert(self.key_seq().contains(k));
        let j = self.key_seq().index_of(k);
        assert(0 <= j < self.key_seq().len() && self.key_seq()[j] == k);
    }

    /// The view's domain is finite and has as many keys as there are entries.
    pub proof fn lemma_len(&self)
        requires
            self.wf(),
        ensures
            self@.dom().finite(),
            self@.dom().len() == self.key_seq().len(),
            self@.dom() == self.key_seq().to_set(),
    {
        let ks = self.key_seq();
        assert(self@.dom() =~= ks.to_set()) by {
            assert forall|k: Seq<char>| self@.dom().contains(k) <==> ks.to_set().contains(k) by {}
        }
        ks.unique_seq_to_set();
    }

    pub fn new() -> (m: Self)
        ensures
            m.wf(),
            m@ == Map::<Seq<char>, V>::empty(),
            m.key_seq().len() == 0,
    {
        let m = StringMap { keys: Vec::new(), values: Vec::new() };
        assert(m@ =~= Map::<Seq<char>, V>::empty());
        m
    }

    /// The number of entries.
    pub fn len(&self) -> (n: usize)
        requires
            self.wf(),
        ensures
            n == self.key_seq().len(),
            n == self@.dom().len(),
    {
        proof {
            self.lemma_len();
        }
        self.keys.len()
    }

    pub fn is_empty(&self) -> (b: bool)
        requires
            self.wf(),
        ensures
            b == (self.key_seq().len() == 0),
            b == (self@ == Map::<Seq<char>, V>::empty()),
    {
        proof {
            if self.key_seq().len() == 0 {
                assert(self@ =~= Map::<Seq<char>, V>::empty());
            } else {
                self.lemma_entry(0);
            }
        }
        self.keys.len() == 0
    }

    /// The position of `key` among the entries, if it is a key of the map.
    pub fn index_of(&self, key: &str) -> (r: Option<usize>)
        requires
            self.wf(),
        ensures
            match r {
                Some(i) => i < self.key_seq().len() && self.key_seq()[i as int] == key@
                    && self@.contains_key(key@) && self@[key@] == self.value_seq()[i as int],
                None => !self@.contains_key(key@),
            },
    {
        let mut i: usize = 0;
        while i < self.keys.len()
            invariant
                self.wf(),
                i <= self.keys.len(),
                forall|j: int| 0 <= j < i ==> self.key_seq()[j] != key@,
            decreases self.keys.len() - i,
        {
            if self.keys[i].as_str().eq(key) {
                proof {
                    self.lemma_entry(i as int);
                }
                return Some(i);
            }
            i += 1;
        }
        None
    }

    pub fn contains_key(&self, key: &str) -> (b: bool)
        requires
            self.wf(),
        ensures
            b == self@.contains_key(key@),
    {
        self.index_of(key).is_some()
    }

    pub fn get(&self, key: &str) -> (r: Option<&V>)
        requires
            self.wf(),
        ensures
            match r {
                Some(v) => self@.contains_key(key@) && *v == self@[key@],
                None => !self@.contains_key(key@),
            },
    {
        match self.index_of(key) {
            Some(i) => Some(&self.values[i]),
            None => None,
        }
    }

    /// The key of the entry at position `i`.
    pub fn key_at(&self, i: usize) -> (k: &String)
        requires
            self.wf(),
            i < self.key_seq().len(),
        ensures
            k@ == self.key_seq()[i as int],
    {
        &self.keys[i]
    }

    /// The value of the entry at position `i`.
    pub fn value_at(&self, i: usize) -> (v: &V)
        requires
            self.wf(),
            i < self.key_seq().len(),
        ensures
            *v == self.value_seq()[i as int],
    {
        &self.values[i]
    }

    /// The value of the entry at position `i`, to be changed in place.
    pub fn value_mut(&mut self, i: usize) -> (v: &mut V)
        requires
            old(self).wf(),
            i < old(self).key_seq().len(),
        ensures
            *v == old(self).value_seq()[i as int],
            final(self).key_seq() == old(self).key_seq(),
            final(self).value_seq() == old(self).value_seq().update(i as int, *final(v)),
    {
        &mut self.values[i]
    }

    /// Sets the value of `key`, adding the key at the end where it is new.
    /// Returns the value that `key` had before.
    pub fn insert(&mut self, key: String, value: V) -> (prev: Option<V>)
        requires
            old(self).wf(),
        ensures
            final(self).wf(),
            final(self)@ == old(self)@.insert(key@, value),
            prev == if old(self)@.contains_key(key@) {
                Some(old(self)@[key@])
            } else {
                None::<V>
            },
            old(self)@.contains_key(key@) ==> final(self).key_seq() == old(self).key_seq(),
            !old(self)@.contains_key(key@) ==> final(self).key_seq() == old(self).key_seq().push(
                key@,
            ),
    {
        match self.index_of(key.as_str()) {
            Some(i) => {
                let mut value = value;
                std::mem::swap(&mut self.values[i], &mut value);
                proof {
                    assert(self.key_seq() == old(self).key_seq());
                    self.lemma_entry(i as int);
                    assert(self@ =~= old(self)@.insert(key@, self.value_seq()[i as int])) by {
                        assert forall|k: Seq<char>| self@.contains_key(k) implies #[trigger] self@[k]
                            == old(self)@.insert(key@, self.value_seq()[i as int])[k] by {
                            let j = self.key_seq().index_of(k);
                            assert(0 <= j < self.key_seq().len() && self.key_seq()[j] == k);
                        }
                    }
                }
                Some(value)
            },
            None => {
                self.keys.push(key);
                self.values.push(value);
                proof {
                    let n = old(self).key_seq().len() as int;
                    assert(self.key_seq() =~= old(self).key_seq().push(key@));
                    assert(self.key_seq().no_duplicates());
                    assert(self@ =~= old(self)@.insert(key@, value)) by {
                        assert forall|k: Seq<char>| #[trigger]
                            self@.contains_key(k) <==> old(self)@.insert(
                            key@,
                            value,
                        ).contains_key(k) by {
                            if old(self).key_seq().contains(k) {
                                let j = old(self).key_seq().index_of(k);
                                assert(self.key_seq()[j] == k);
                            }
                            if k == key@ {
                                assert(self.key_seq()[n] == k);
                            }
                        }
                        assert forall|k: Seq<char>| self@.contains_key(k) implies #[trigger] self@[k]
                            == old(self)@.insert(key@, value)[k] by {
                            let j = self.key_seq().index_of(k);
                            assert(0 <= j < self.key_seq().len() && self.key_seq()[j] == k);
                            if j < n {
                                assert(old(self).key_seq()[j] == k);
                                old(self).lemma_entry(j);
                            }
                        }
                    }
                }
                None
            },
        }
    }

    /// Removes `key` and returns the value that it had. The other entries keep their order.
    pub fn remove(&mut self, key: &str) -> (prev: Option<V>)
        requires
            old(self).wf(),
        ensures
            final(self).wf(),
            final(self)@ == old(self)@.remove(key@),
            prev == if old(self)@.contains_key(key@) {
                Some(old(self)@[key@])
            } else {
                None::<V>
            },
    {
        match self.index_of(key) {
            Some(i) => {
                let _ = self.keys.remove(i);
                let v = self.values.remove(i);
                proof {
                    let oks = old(self).key_seq();
                    let nks = self.key_seq();
                    assert(nks =~= oks.remove(i as int));
                    assert(self.value_seq() =~= old(self).value_seq().remove(i as int));
                    assert(nks.no_duplicates()) by {
                        assert forall|a: int, b: int| 0 <= a < nks.len() && 0 <= b < nks.len() && a != b implies nks[a] != nks[b] by {
                            let a2 = if a < i { a } else { a + 1 };
                            let b2 = if b < i { b } else { b + 1 };
                            assert(nks[a] == oks[a2] && nks[b] == oks[b2]);
                        }
                    }
                    assert(self@ =~= old(self)@.remove(key@)) by {
                        assert forall|k: Seq<char>| #[trigger]
                            self@.contains_key(k) <==> old(self)@.remove(key@).contains_key(
                            k,
                        ) by {
                            if nks.contains(k) {
                                let j = nks.index_of(k);
                                let j2 = if j < i { j } else { j + 1 };
                                assert(oks[j2] == k);
                            }
                            if oks.contains(k) && k != key@ {
                                let j = oks.index_of(k);
                                let j2 = if j < i { j } else { j - 1 };
                                assert(nks[j2] == k);
                            }
                        }
                        assert forall|k: Seq<char>| self@.contains_key(k) implies #[trigger] self@[k]
                            == old(self)@.remove(key@)[k] by {
                            let j = nks.index_of(k);
                            assert(0 <= j < nks.len() && nks[j] == k);
                            let j2 = if j < i { j } else { j + 1 };
                            assert(oks[j2] == k);
                            old(self).lemma_entry(j2);
                        }
                    }
                }
                Some(v)
            },
            None => {
                assert(self@ =~= old(self)@.remove(key@));
                None
            },
        }
    }

    /// Removes every entry.
    pub fn clear(&mut self)
        ensures
            final(self).wf(),
            final(self)@ == Map::<Seq<char>, V>::empty(),
            final(self).key_seq().len() == 0,
    {
        self.keys.clear();
        self.values.clear();
        assert(self@ =~= Map::<Seq<char>, V>::empty());
    }
}

/// Changing the value at one position of a well-formed map changes the view at that key alone.
pub proof fn lemma_value_updated<V>(before: StringMap<V>, after: StringMap<V>, i: int, v: V)
    requires
        before.wf(),
        0 <= i < before.key_seq().len(),
        after.key_seq() == before.key_seq(),
        after.value_seq() == before.value_seq().update(i, v),
    ensures
        after.wf(),
        after@ == before@.insert(before.key_seq()[i], v),
{
    assert(after@ =~= before@.insert(before.key_seq()[i], v)) by {
        assert forall|k: Seq<char>| after@.contains_key(k) implies #[trigger] after@[k]
            == before@.insert(before.key_seq()[i], v)[k] by {
            let j = after.key_seq().index_of(k);
            assert(0 <= j < after.key_seq().len() && after.key_seq()[j] == k);
        }
    }
}

} // verus!
