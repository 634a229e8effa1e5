use vstd::prelude::*;

verus! {

/// No two entries of `s` share a key.
pub open spec fn keys_distinct(s: Seq<(String, String)>) -> bool {
    forall|i: int, j: int|
        0 <= i < s.len() && 0 <= j < s.len() && i != j ==> (#[trigger] s[i]).0@ != (#[trigger] s[j]).0@
}

/// The entries of `s` and the map `m` hold the same key/value pairs.
pub open spec fn pairs_match_map(s: Seq<(String, String)>, m: Map<Seq<char>, Seq<char>>) -> bool {
    &&& forall|i: int|
        0 <= i < s.len() ==> m.contains_key((#[trigger] s[i]).0@) && m[s[i].0@] == s[i].1@
    &&& forall|k: Seq<char>|
        #[trigger] m.contains_key(k) ==> exists|i: int| 0 <= i < s.len() && (#[trigger] s[i]).0@ == k
}

/// A finite map from strings to strings.
///
/// The entries are kept in a vector with pairwise distinct keys, in the order
/// in which each key was first inserted; writing an existing key overwrites
/// its value in place.
pub struct StringMap {
    entries: Vec<(String, String)>,
    contents: Ghost<Map<Seq<char>, Seq<char>>>,
}

impl View for StringMap {
    type V = Map<Seq<char>, Seq<char>>;

    closed spec fn view(&self) -> Map<Seq<char>, Seq<char>> {
        self.contents@
    }
}

impl StringMap {
    #[verifier::type_invariant]
    spec fn wf(self) -> bool {
        &&& keys_distinct(self.entries@)
        &&& pairs_match_map(self.entries@, self.contents@)
    }

    /// A well-formed map has finitely many keys.
    proof fn lemma_finite(self)
        requires
            self.wf(),
        ensures
            self@.dom().finite(),
    {
        let keys = self.entries@.map_values(|e: (String, String)| e.0@);
        assert forall|k: Seq<char>| self@.dom().contains(k) implies keys.to_set().contains(k) by {
            let i = choose|i: int| 0 <= i < self.entries@.len() && (#[trigger] self.entries@[i]).0@ == k;
            assert(keys[i] == k);
        }
        assert forall|k: Seq<char>| keys.to_set().contains(k) implies self@.dom().contains(k) by {
            let i = choose|i: int| 0 <= i < keys.len() && keys[i] == k;
            assert(self.entries@[i].0@ == k);
        }
        assert(self@.dom() =~= keys.to_set());
        vstd::seq_lib::seq_to_set_is_finite(keys);
    }

    /// The empty map.
    pub fn new() -> (r: StringMap)
        ensures
            r@ == Map::<Seq<char>, Seq<char>>::empty(),
    {
        StringMap { entries: Vec::new(), contents: Ghost(Map::empty()) }
    }

    /// Position of the entry whose key is `key`, if there is one.
    fn find(&self, key: &String) -> (r: Option<usize>)
        ensures
            match r {
                Some(i) => i < self.entries@.len() && self.entries@[i as int].0@ == key@,
                None => !self@.contains_key(key@),
            },
    {
        proof {
            use_type_invariant(self);
        }
        let mut i: usize = 0;
        while i < self.entries.len()
            invariant
                i <= self.entries@.len(),
                forall|j: int| 0 <= j < i ==> (#[trigger] self.entries@[j]).0@ != key@,
            decreases self.entries@.len() - i,
        {
            if self.entries[i].0 == *key {
                return Some(i);
            }
            i += 1;
        }
        None
    }

    /// Whether the map holds no entry.
    pub fn is_empty(&self) -> (r: bool)
        ensures
            r == (self@ == Map::<Seq<char>, Seq<char>>::empty()),
            self@.dom().finite(),
    {
        proof {
            use_type_invariant(self);
            self.lemma_finite();
        }
        let r = self.entries.len() == 0;
        proof {
            if r {
                assert(self@ =~= Map::<Seq<char>, Seq<char>>::empty());
            } else {
                assert(self@.contains_key(self.entries@[0].0@));
            }
        }
        r
    }

    /// The value stored under `key`, if any.
    pub fn get(&self, key: &String) -> (r: Option<&String>)
        ensures
            match r {
                Some(v) => self@.contains_key(key@) && v@ == self@[key@],
                None => !self@.contains_key(key@),
            },
            self@.dom().finite(),
    {
        proof {
            use_type_invariant(self);
            self.lemma_finite();
        }
        match self.find(key) {
            Some(i) => Some(&self.entries[i].1),
            None => None,
        }
    }

    /// Stores `value` under `key`, replacing any earlier value of `key`.
    pub fn insert(&mut self, key: String, value: String)
        ensures
            final(self)@ == old(self)@.insert(key@, value@),
            old(self)@.dom().finite(),
            final(self)@.dom().finite(),
    {
        proof {
            use_type_invariant(&*self);
            self.lemma_finite();
        }
        let found = self.find(&key);
        let mut taken = StringMap::new();
        std::mem::swap(&mut taken, self);
        let StringMap { mut entries, contents } = taken;
        let ghost old_entries = entries@;
        let ghost new_contents = contents@.insert(key@, value@);
        match found {
            Some(i) => {
                entries.set(i, (key, value));
                proof {
                    assert forall|k: Seq<char>| #[trigger] new_contents.contains_key(k) implies exists|
                        j: int,
                    | 0 <= j < entries@.len() && (#[trigger] entries@[j]).0@ == k by {
                        if k != old_entries[i as int].0@ {
                            let j = choose|j: int|
                                0 <= j < old_entries.len() && (#[trigger] old_entries[j]).0@ == k;
                            assert(entries@[j] == old_entries[j]);
                        } else {
                            assert(entries@[i as int].0@ == k);
                        }
                    }
                }
            },
            None => {
                entries.push((key, value));
                proof {
                    let n = old_entries.len() as int;
                    assert forall|j: int| 0 <= j < n implies (#[trigger] old_entries[j]).0@
                        != entries@[n].0@ by {
                        assert(contents@.contains_key(old_entries[j].0@));
                    }
                    assert forall|k: Seq<char>| #[trigger] new_contents.contains_key(k) implies exists|
                        j: int,
                    | 0 <= j < entries@.len() && (#[trigger] entries@[j]).0@ == k by {
                        if k != entries@[n].0@ {
                            let j = choose|j: int|
                                0 <= j < old_entries.len() && (#[trigger] old_entries[j]).0@ == k;
                            assert(entries@[j] == old_entries[j]);
                        }
                    }
                }
            },
        }
        *self = StringMap { entries, contents: Ghost(new_contents) };
    }

    /// Removes the entry of `key`; does nothing where there is none.
    pub fn remove(&mut self, key: &String)
        ensures
            final(self)@ == old(self)@.remove(key@),
            old(self)@.dom().finite(),
            final(self)@.dom().finite(),
    {
        proof {
            use_type_invariant(&*self);
            self.lemma_finite();
        }
        match self.find(key) {
            Some(i) => {
                let mut taken = StringMap::new();
                std::mem::swap(&mut taken, self);
                let StringMap { mut entries, contents } = taken;
                let ghost old_entries = entries@;
                let ghost new_contents = contents@.remove(key@);
                entries.remove(i);
                proof {
                    assert forall|j: int| 0 <= j < entries@.len() implies #[trigger] entries@[j]
                        == old_entries[if j < i { j } else { j + 1 }] by {}
                    assert forall|k: Seq<char>| #[trigger] new_contents.contains_key(k) implies exists|
                        j: int,
                    | 0 <= j < entries@.len() && (#[trigger] entries@[j]).0@ == k by {
                        let w = choose|w: int|
                            0 <= w < old_entries.len() && (#[trigger] old_entries[w]).0@ == k;
                        if w < i {
                            assert(entries@[w] == old_entries[w]);
                        } else {
                            assert(entries@[w - 1] == old_entries[w]);
                        }
                    }
                }
                *self = StringMap { entries, contents: Ghost(new_contents) };
            },
            None => {
                assert(self@.remove(key@) =~= self@);
            },
        }
    }

    /// The entries, each key once, in the order in which the keys were first inserted.
    pub fn to_vec(&self) -> (r: Vec<(String, String)>)
        ensures
            keys_distinct(r@),
            pairs_match_map(r@, self@),
            self@.dom().finite(),
    {
        proof {
            use_type_invariant(self);
            self.lemma_finite();
        }
        let mut out: Vec<(String, String)> = Vec::new();
        let mut i: usize = 0;
        while i < self.entries.len()
            invariant
                i <= self.entries@.len(),
                out@.len() == i,
                forall|j: int|
                    0 <= j < i ==> (#[trigger] out@[j]).0@ == self.entries@[j].0@ && out@[j].1@
                        == self.entries@[j].1@,
            decreases self.entries@.len() - i,
        {
            let k = self.entries[i].0.clone();
            let v = self.entries[i].1.clone();
            out.push((k, v));
            i += 1;
        }
        proof {
            assert forall|k: Seq<char>| #[trigger] self@.contains_key(k) implies exists|j: int|
                0 <= j < out@.len() && (#[trigger] out@[j]).0@ == k by {
                let j = choose|j: int|
                    0 <= j < self.entries@.len() && (#[trigger] self.entries@[j]).0@ == k;
                assert(out@[j].0@ == k);
            }
        }
        out
    }

    /// A copy of the map, independent of the original.
    pub fn snapshot(&self) -> (r: StringMap)
        ensures
            r@ == self@,
            r@.dom().finite(),
    {
        let entries = self.to_vec();
        StringMap { entries, contents: Ghost(self@) }
    }
}

} // verus!
