//! A map from texts to values that remembers the order in which its keys came.
use vstd::prelude::*;

use crate::text::same_text;

verus! {

/// A map keyed by text. `keys[i]` belongs to `values[i]`, and no key occurs twice.
#[derive(Debug)]
pub struct TextMap<V> {
    pub keys: Vec<String>,
    pub values: Vec<V>,
}

impl<V> View for TextMap<V> {
    type V = Map<Seq<char>, V>;

    open spec fn view(&self) -> Map<Seq<char>, V> {
        Map::new(
            |key: Seq<char>| exists|i: int| self.key_at(i, key),
            |key: Seq<char>| self.values@[self.index_of(key)],
        )
    }
}

impl<V> TextMap<V> {
    /// `key` is the key at index `i`.
    pub open spec fn key_at(&self, i: int, key: Seq<char>) -> bool {
        0 <= i < self.keys@.len() && self.keys@[i]@ == key
    }

    /// An index at which `key` stands, if there is one.
    pub open spec fn index_of(&self, key: Seq<char>) -> int {
        choose|i: int| self.key_at(i, key)
    }

    /// Every key has one value and stands once.
    pub open spec fn wf(&self) -> bool {
        &&& self.keys@.len() == self.values@.len()
        &&& forall|i: int, j: int|
            0 <= i < j < self.keys@.len() ==> (#[trigger] self.keys@[i])@ != (
            #[trigger] self.keys@[j])@
    }

    /// The map holds the value at each index under the key at that index.
    pub proof fn lemma_at(&self, i: int)
        requires
            self.wf(),
            0 <= i < self.keys@.len(),
        ensures
            self@.contains_key(self.keys@[i]@),
            self@[self.keys@[i]@] == self.values@[i],
            self.index_of(self.keys@[i]@) == i,
    {
        let key = self.keys@[i]@;
        assert(self.key_at(i, key));
        let k = self.index_of(key);
        assert(self.key_at(k, key));
        if k < i {
            assert(self.keys@[k]@ != self.keys@[i]@);
        } else if i < k {
            assert(self.keys@[i]@ != self.keys@[k]@);
        }
    }

    /// The keys of the map are those that stand in it.
    pub proof fn lemma_key(&self, key: Seq<char>)
        requires
            self.wf(),
            self@.contains_key(key),
        ensures
            0 <= self.index_of(key) < self.keys@.len(),
            self.keys@[self.index_of(key)]@ == key,
            self@[key] == self.values@[self.index_of(key)],
    {
    }

    /// The empty map.
    pub fn new() -> (r: Self)
        ensures
            r.wf(),
            r@ == Map::<Seq<char>, V>::empty(),
            r.keys@.len() == 0,
            r.values@.len() == 0,
    {
        let r = TextMap { keys: Vec::new(), values: Vec::new() };
        assert(r@ =~= Map::<Seq<char>, V>::empty());
        r
    }

    /// The number of keys.
    pub fn len(&self) -> (r: usize)
        requires
            self.wf(),
        ensures
            r == self.keys@.len(),
            r == self@.dom().len(),
            self@.dom().finite(),
    {
        proof {
            self.lemma_size();
        }
        self.keys.len()
    }

    proof fn lemma_size(&self)
        requires
            self.wf(),
        ensures
            self@.dom().finite(),
            self@.dom().len() == self.keys@.len(),
    {
        let texts = self.keys@.map_values(|k: String| k@);
        assert(texts.no_duplicates()) by {
            assert forall|i: int, j: int|
                0 <= i < texts.len() && 0 <= j < texts.len() && i != j implies texts[i]
                != texts[j] by {
                if i < j {
                    assert(self.keys@[i]@ != self.keys@[j]@);
                } else {
                    assert(self.keys@[j]@ != self.keys@[i]@);
                }
            }
        }
        texts.unique_seq_to_set();
        assert(texts.to_set() =~= self@.dom()) by {
            assert forall|key: Seq<char>| texts.to_set().contains(key)
                <==> self@.dom().contains(key) by {
                if self@.contains_key(key) {
                    self.lemma_key(key);
                    assert(texts[self.index_of(key)] == key);
                }
                if texts.contains(key) {
                    let i = choose|i: int| 0 <= i < texts.len() && texts[i] == key;
                    assert(self.key_at(i, key));
                }
            }
        }
    }

    /// The index of `key`, if the map has it.
    pub fn find(&self, key: &str) -> (r: Option<usize>)
        requires
            self.wf(),
        ensures
            match r {
                Some(i) => {
                    &&& i < self.keys@.len()
                    &&& self.keys@[i as int]@ == key@
                    &&& self@.contains_key(key@)
                    &&& self@[key@] == self.values@[i as int]
                    &&& i == self.index_of(key@)
                },
                None => !self@.contains_key(key@),
            },
    {
        let mut i: usize = 0;
        while i < self.keys.len()
            invariant
                self.wf(),
                i <= self.keys@.len(),
                forall|j: int| 0 <= j < i ==> (#[trigger] self.keys@[j])@ != key@,
            decreases self.keys@.len() - i,
        {
            if same_text(self.keys[i].as_str(), key) {
                proof {
                    self.lemma_at(i as int);
                }
                return Some(i);
            }
            i = i + 1;
        }
        proof {
            if self@.contains_key(key@) {
                self.lemma_key(key@);
            }
        }
        None
    }

    /// Whether the map has `key`.
    pub fn contains_key(&self, key: &str) -> (r: bool)
        requires
            self.wf(),
        ensures
            r == self@.contains_key(key@),
    {
        self.find(key).is_some()
    }

    /// The value of `key`, if the map has it.
    pub fn get(&self, key: &str) -> (r: Option<&V>)
        requires
            self.wf(),
        ensures
            match r {
                Some(value) => self@.contains_key(key@) && *value == self@[key@],
                None => !self@.contains_key(key@),
            },
    {
        match self.find(key) {
            Some(i) => Some(&self.values[i]),
            None => None,
        }
    }

    /// Gives `key` the value `value`. A key that is already there keeps its place.
    pub fn insert(&mut self, key: String, value: V)
        requires
            old(self).wf(),
        ensures
            final(self).wf(),
            final(self)@ == old(self)@.insert(key@, value),
            old(self)@.contains_key(key@) ==> final(self).keys@ == old(self).keys@
                && final(self).values@ == old(self).values@.update(
                old(self).index_of(key@),
                value,
            ),
            !old(self)@.contains_key(key@) ==> final(self).keys@ == old(self).keys@.push(key)
                && final(self).values@ == old(self).values@.push(value),
    {
        let ghost before = *self;
        match self.find(key.as_str()) {
            Some(i) => {
                self.values.set(i, value);
                proof {
                    before.lemma_at(i as int);
                    let after = *self;
                    assert(after.wf());
                    after.lemma_at(i as int);
                    assert forall|k: Seq<char>| #![auto] after@.contains_key(k)
                        == before@.insert(key@, value).contains_key(k) by {
                        if after@.contains_key(k) {
                            assert(before.key_at(after.index_of(k), k));
                        }
                        if before@.contains_key(k) {
                            assert(after.key_at(before.index_of(k), k));
                        }
                    }
                    assert forall|k: Seq<char>| #![auto] after@.contains_key(k) implies after@[k]
                        == before@.insert(key@, value)[k] by {
                        after.lemma_key(k);
                        before.lemma_at(after.index_of(k));
                        after.lemma_at(after.index_of(k));
                    }
                    assert(after@ =~= before@.insert(key@, value));
                }
            },
            None => {
                let ghost key_text = key@;
                self.keys.push(key);
                self.values.push(value);
                proof {
                    let after = *self;
                    let n = before.keys@.len() as int;
                    assert forall|i: int, j: int| 0 <= i < j < after.keys@.len() implies (
                    #[trigger] after.keys@[i])@ != (#[trigger] after.keys@[j])@ by {
                        if j == n {
                            before.lemma_at(i);
                        }
                    }
                    after.lemma_at(n);
                    assert forall|k: Seq<char>| #![auto] after@.contains_key(k)
                        == before@.insert(key_text, value).contains_key(k) by {
                        if after@.contains_key(k) {
                            after.lemma_key(k);
                            if after.index_of(k) < n {
                                assert(before.key_at(after.index_of(k), k));
                            }
                        }
                        if before@.contains_key(k) {
                            assert(after.key_at(before.index_of(k), k));
                        }
                    }
                    assert forall|k: Seq<char>| #![auto] after@.contains_key(k) implies after@[k]
                        == before@.insert(key_text, value)[k] by {
                        after.lemma_key(k);
                        if after.index_of(k) < n {
                            before.lemma_at(after.index_of(k));
                        }
                        after.lemma_at(after.index_of(k));
                    }
                    assert(after@ =~= before@.insert(key_text, value));
                }
            },
        }
    }
}

} // verus!
