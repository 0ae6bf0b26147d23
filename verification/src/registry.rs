//! A small map from identifier text to values, kept as a list in which no
//! key occurs twice.

use vstd::prelude::*;

use crate::text::str_eq;

verus! {

/// A map keyed by identifier text.
pub struct IdMap<V> {
    entries: Vec<(String, V)>,
}

/// No key occurs at two places.
pub open spec fn keys_distinct<V>(entries: Seq<(String, V)>) -> bool {
    forall|i: int, j: int|
        0 <= i < entries.len() && 0 <= j < entries.len() && i != j ==> #[trigger] entries[i].0@
            != #[trigger] entries[j].0@
}

/// `key` occurs at place `i`.
pub open spec fn key_at<V>(entries: Seq<(String, V)>, key: Seq<char>, i: int) -> bool {
    0 <= i < entries.len() && entries[i].0@ == key
}

/// The map that a list of entries stands for.
pub open spec fn entries_map<V: View>(entries: Seq<(String, V)>) -> Map<Seq<char>, V::V> {
    Map::new(
        |key: Seq<char>| exists|i: int| key_at(entries, key, i),
        |key: Seq<char>| entries[choose|i: int| key_at(entries, key, i)].1@,
    )
}

impl<V: View> View for IdMap<V> {
    type V = Map<Seq<char>, V::V>;

    closed spec fn view(&self) -> Map<Seq<char>, V::V> {
        entries_map(self.entries@)
    }
}

impl<V> IdMap<V> {
    #[verifier::type_invariant]
    spec fn well_formed(&self) -> bool {
        keys_distinct(self.entries@)
    }
}

impl<V: View> IdMap<V> {
    /// The empty map.
    pub fn new() -> (r: Self)
        ensures
            r@ == Map::<Seq<char>, V::V>::empty(),
    {
        let r = IdMap { entries: Vec::new() };
        assert(r@ =~= Map::<Seq<char>, V::V>::empty());
        r
    }

    fn position(&self, key: &str) -> (r: Option<usize>)
        ensures
            match r {
                Some(i) => key_at(self.entries@, key@, i as int),
                None => forall|i: int| !key_at(self.entries@, key@, i),
            },
    {
        let mut i: usize = 0;
        while i < self.entries.len()
            invariant
                i <= self.entries.len(),
                forall|k: int| 0 <= k < i ==> !key_at(self.entries@, key@, k),
            decreases self.entries.len() - i,
        {
            if str_eq(self.entries[i].0.as_str(), key) {
                return Some(i);
            }
            i += 1;
        }
        None
    }

    /// The value stored under `key`, if any.
    pub fn get(&self, key: &str) -> (r: Option<&V>)
        ensures
            match r {
                Some(v) => self@.contains_key(key@) && self@[key@] == v@,
                None => !self@.contains_key(key@),
            },
    {
        proof {
            use_type_invariant(self);
        }
        match self.position(key) {
            Some(i) => {
                proof {
                    let c = choose|c: int| key_at(self.entries@, key@, c);
                    assert(c == i);
                }
                Some(&self.entries[i].1)
            },
            None => None,
        }
    }

    /// `true` exactly when a value is stored under `key`.
    pub fn contains(&self, key: &str) -> (r: bool)
        ensures
            r == self@.contains_key(key@),
    {
        self.position(key).is_some()
    }

    /// Stores `value` under `key`, in place of what was stored there.
    pub fn insert(&mut self, key: String, value: V)
        ensures
            final(self)@ == old(self)@.insert(key@, value@),
    {
        proof {
            use_type_invariant(&*self);
        }
        let ghost before = self.entries@;
        let found = self.position(key.as_str());
        let mut entries: Vec<(String, V)> = Vec::new();
        core::mem::swap(&mut self.entries, &mut entries);
        match found {
            Some(i) => {
                entries.remove(i);
                let ghost middle = entries@;
                assert(keys_distinct(middle)) by {
                    assert forall|a: int, b: int|
                        0 <= a < middle.len() && 0 <= b < middle.len() && a != b implies middle[a].0@
                        != middle[b].0@ by {
                        let a0 = if a < i { a } else { a + 1 };
                        let b0 = if b < i { b } else { b + 1 };
                        assert(middle[a] == before[a0]);
                        assert(middle[b] == before[b0]);
                    }
                }
                assert(forall|k: int| !key_at(middle, key@, k)) by {
                    assert forall|k: int| !key_at(middle, key@, k) by {
                        if 0 <= k < middle.len() {
                            let k0 = if k < i { k } else { k + 1 };
                            assert(middle[k] == before[k0]);
                        }
                    }
                }
                entries.push((key, value));
                proof {
                    let after = entries@;
                    assert(keys_distinct(after)) by {
                        assert forall|a: int, b: int|
                            0 <= a < after.len() && 0 <= b < after.len() && a != b implies after[a].0@
                            != after[b].0@ by {
                            if a < middle.len() {
                                assert(!key_at(middle, key@, a));
                            }
                            if b < middle.len() {
                                assert(!key_at(middle, key@, b));
                            }
                        }
                    }
                    assert(entries_map(after) =~= entries_map(before).insert(key@, value@)) by {
                        assert forall|q: Seq<char>|
                            entries_map(after).contains_key(q) <==> entries_map(before).insert(
                                key@,
                                value@,
                            ).contains_key(q) by {
                            if entries_map(after).contains_key(q) {
                                let c = choose|c: int| key_at(after, q, c);
                                if c < middle.len() {
                                    let c0 = if c < i { c } else { c + 1 };
                                    assert(after[c] == before[c0]);
                                    assert(key_at(before, q, c0));
                                }
                            }
                            if entries_map(before).contains_key(q) && q != key@ {
                                let c = choose|c: int| key_at(before, q, c);
                                assert(c != i);
                                let c1 = if c < i { c } else { c - 1 };
                                assert(after[c1] == before[c]);
                                assert(key_at(after, q, c1));
                            }
                            if q == key@ {
                                assert(key_at(after, q, after.len() - 1));
                            }
                        }
                        assert forall|q: Seq<char>| entries_map(after).contains_key(q) implies entries_map(
                            after,
                        )[q] == entries_map(before).insert(key@, value@)[q] by {
                            let c = choose|c: int| key_at(after, q, c);
                            if c < middle.len() {
                                let c0 = if c < i { c } else { c + 1 };
                                assert(after[c] == before[c0]);
                                assert(key_at(before, q, c0));
                                let d = choose|d: int| key_at(before, q, d);
                                assert(d == c0);
                                assert(q != key@);
                            } else {
                                assert(q == key@);
                            }
                        }
                    }
                }
            },
            None => {
                entries.push((key, value));
                proof {
                    let after = entries@;
                    assert(keys_distinct(after)) by {
                        assert forall|a: int, b: int|
                            0 <= a < after.len() && 0 <= b < after.len() && a != b implies after[a].0@
                            != after[b].0@ by {
                            if a < before.len() {
                                assert(!key_at(before, key@, a));
                            }
                            if b < before.len() {
                                assert(!key_at(before, key@, b));
                            }
                        }
                    }
                    assert(entries_map(after) =~= entries_map(before).insert(key@, value@)) by {
                        assert forall|q: Seq<char>|
                            entries_map(after).contains_key(q) <==> entries_map(before).insert(
                                key@,
                                value@,
                            ).contains_key(q) by {
                            if entries_map(after).contains_key(q) {
                                let c = choose|c: int| key_at(after, q, c);
                                if c < before.len() {
                                    assert(key_at(before, q, c));
                                }
                            }
                            if entries_map(before).contains_key(q) {
                                let c = choose|c: int| key_at(before, q, c);
                                assert(key_at(after, q, c));
                            }
                            if q == key@ {
                                assert(key_at(after, q, after.len() - 1));
                            }
                        }
                        assert forall|q: Seq<char>| entries_map(after).contains_key(q) implies entries_map(
                            after,
                        )[q] == entries_map(before).insert(key@, value@)[q] by {
                            let c = choose|c: int| key_at(after, q, c);
                            if c < before.len() {
                                assert(key_at(before, q, c));
                                let d = choose|d: int| key_at(before, q, d);
                                assert(d == c);
                            } else {
                                assert(q == key@);
                            }
                        }
                    }
                }
            },
        }
        self.entries = entries;
    }

    /// Takes out what is stored under `key`, if anything.
    pub fn remove(&mut self, key: &str) -> (r: Option<V>)
        ensures
            final(self)@ == old(self)@.remove(key@),
            match r {
                Some(v) => old(self)@.contains_key(key@) && old(self)@[key@] == v@,
                None => !old(self)@.contains_key(key@),
            },
    {
        proof {
            use_type_invariant(&*self);
        }
        let ghost before = self.entries@;
        match self.position(key) {
            Some(i) => {
                proof {
                    let c = choose|c: int| key_at(before, key@, c);
                    assert(c == i);
                }
                let mut entries: Vec<(String, V)> = Vec::new();
                core::mem::swap(&mut self.entries, &mut entries);
                let (_, value) = entries.remove(i);
                proof {
                    let after = entries@;
                    assert(keys_distinct(after)) by {
                        assert forall|a: int, b: int|
                            0 <= a < after.len() && 0 <= b < after.len() && a != b implies after[a].0@
                            != after[b].0@ by {
                            let a0 = if a < i { a } else { a + 1 };
                            let b0 = if b < i { b } else { b + 1 };
                            assert(after[a] == before[a0]);
                            assert(after[b] == before[b0]);
                        }
                    }
                    assert(entries_map(after) =~= entries_map(before).remove(key@)) by {
                        assert forall|q: Seq<char>|
                            entries_map(after).contains_key(q) <==> entries_map(before).remove(
                                key@,
                            ).contains_key(q) by {
                            if entries_map(after).contains_key(q) {
                                let c = choose|c: int| key_at(after, q, c);
                                let c0 = if c < i { c } else { c + 1 };
                                assert(after[c] == before[c0]);
                                assert(key_at(before, q, c0));
                                assert(c0 != i);
                            }
                            if entries_map(before).contains_key(q) && q != key@ {
                                let c = choose|c: int| key_at(before, q, c);
                                assert(c != i);
                                let c1 = if c < i { c } else { c - 1 };
                                assert(after[c1] == before[c]);
                                assert(key_at(after, q, c1));
                            }
                        }
                        assert forall|q: Seq<char>| entries_map(after).contains_key(q) implies entries_map(
                            after,
                        )[q] == entries_map(before).remove(key@)[q] by {
                            let c = choose|c: int| key_at(after, q, c);
                            let c0 = if c < i { c } else { c + 1 };
                            assert(after[c] == before[c0]);
                            assert(key_at(before, q, c0));
                            let d = choose|d: int| key_at(before, q, d);
                            assert(d == c0);
                        }
                    }
                }
                self.entries = entries;
                Some(value)
            },
            None => {
                assert(entries_map(before) =~= entries_map(before).remove(key@));
                None
            },
        }
    }

    /// Takes out everything.
    pub fn clear(&mut self)
        ensures
            final(self)@ == Map::<Seq<char>, V::V>::empty(),
    {
        self.entries = Vec::new();
        assert(entries_map(self.entries@) =~= Map::<Seq<char>, V::V>::empty());
    }

    /// The number of entries.
    pub fn len(&self) -> (r: usize)
        ensures
            r == self.spec_len(),
    {
        self.entries.len()
    }

    /// The number of entries.
    pub closed spec fn spec_len(&self) -> nat {
        self.entries@.len()
    }
}

} // verus!
