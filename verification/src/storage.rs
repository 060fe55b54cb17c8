//! The store behind the key material: an in-memory map of string keys to
//! string values with unique keys, loaded from the host as a list of entries
//! and handed back the same way. Lookups find the one entry with the key;
//! writes replace it in place or append a new entry.

use vstd::prelude::*;

use crate::models::str_eq;

verus! {

/// The position of the first entry with this key, or a negative value when
/// there is none.
pub open spec fn spec_find_key(es: Seq<(String, String)>, k: Seq<char>) -> int
    decreases es.len(),
{
    if es.len() == 0 {
        -1
    } else if es[0].0@ == k {
        0
    } else {
        let r = spec_find_key(es.skip(1), k);
        if r < 0 {
            -1
        } else {
            r + 1
        }
    }
}

/// The value stored under this key, if any.
pub open spec fn spec_lookup(es: Seq<(String, String)>, k: Seq<char>) -> Option<Seq<char>> {
    let at = spec_find_key(es, k);
    if at < 0 {
        None
    } else {
        Some(es[at].1@)
    }
}

/// Whether no two entries share a key.
pub open spec fn unique_keys(es: Seq<(String, String)>) -> bool {
    forall|i: int, j: int| 0 <= i < j < es.len() ==> (#[trigger] es[i]).0@ != (#[trigger] es[j]).0@
}

/// If every entry before `i` mismatches and entry `i` matches, the first
/// match is at `i`.
proof fn lemma_find_key_here(es: Seq<(String, String)>, k: Seq<char>, i: int)
    requires
        0 <= i < es.len(),
        forall|j: int| 0 <= j < i ==> (#[trigger] es[j]).0@ != k,
        es[i].0@ == k,
    ensures
        spec_find_key(es, k) == i,
    decreases i,
{
    if i > 0 {
        lemma_find_key_here(es.skip(1), k, i - 1);
    }
}

/// If every entry mismatches, there is no match.
proof fn lemma_find_key_none(es: Seq<(String, String)>, k: Seq<char>)
    requires
        forall|j: int| 0 <= j < es.len() ==> (#[trigger] es[j]).0@ != k,
    ensures
        spec_find_key(es, k) == -1,
    decreases es.len(),
{
    if es.len() > 0 {
        lemma_find_key_none(es.skip(1), k);
    }
}

/// The store the key material lives in: string entries with unique keys.
#[derive(Debug, Clone)]
pub struct NativeStorage {
    pub entries: Vec<(String, String)>,
}

impl NativeStorage {
    /// Well-formedness: keys are unique.
    pub open spec fn wf(&self) -> bool {
        unique_keys(self.entries@)
    }

    /// Builds a store from host-provided entries; refused when two entries
    /// share a key.
    pub fn from_pairs(pairs: Vec<(String, String)>) -> (r: Option<NativeStorage>)
        ensures
            r is Some <==> unique_keys(pairs@),
            r matches Some(s) ==> s.entries@ == pairs@ && s.wf(),
    {
        let n = pairs.len();
        let mut i: usize = 0;
        while i < n
            invariant
                i <= n,
                n == pairs@.len(),
                forall|p: int, q: int|
                    0 <= p < q < i ==> (#[trigger] pairs@[p]).0@ != (#[trigger] pairs@[q]).0@,
            decreases n - i,
        {
            let mut j: usize = 0;
            while j < i
                invariant
                    j <= i < n,
                    n == pairs@.len(),
                    forall|p: int, q: int|
                        0 <= p < q < i ==> (#[trigger] pairs@[p]).0@ != (#[trigger] pairs@[q]).0@,
                    forall|p: int| 0 <= p < j ==> (#[trigger] pairs@[p]).0@ != pairs@[i as int].0@,
                decreases i - j,
            {
                if str_eq(pairs[j].0.as_str(), pairs[i].0.as_str()) {
                    return None;
                }
                j += 1;
            }
            i += 1;
        }
        Some(NativeStorage { entries: pairs })
    }

    /// The value stored under this key, if any.
    pub fn get(&self, key: &str) -> (r: Option<String>)
        ensures
            ({
                let at = spec_find_key(self.entries@, key@);
                if at < 0 {
                    r is None
                } else {
                    r matches Some(v) && v@ == self.entries@[at].1@
                }
            }),
    {
        let n = self.entries.len();
        let mut i: usize = 0;
        while i < n
            invariant
                i <= n,
                n == self.entries@.len(),
                forall|j: int| 0 <= j < i ==> (#[trigger] self.entries@[j]).0@ != key@,
            decreases n - i,
        {
            if str_eq(self.entries[i].0.as_str(), key) {
                proof {
                    lemma_find_key_here(self.entries@, key@, i as int);
                }
                return Some(self.entries[i].1.clone());
            }
            i += 1;
        }
        proof {
            lemma_find_key_none(self.entries@, key@);
        }
        None
    }

    /// Stores a value under a key: an existing entry is replaced in place —
    /// the key and every other entry untouched — and a fresh key is appended.
    /// Uniqueness of keys is preserved.
    pub fn set(&mut self, key: &str, value: &str)
        requires
            old(self).wf(),
        ensures
            final(self).wf(),
            ({
                let at = spec_find_key(old(self).entries@, key@);
                if at < 0 {
                    &&& final(self).entries@.len() == old(self).entries@.len() + 1
                    &&& final(self).entries@.drop_last() == old(self).entries@
                    &&& final(self).entries@.last().0@ == key@
                    &&& final(self).entries@.last().1@ == value@
                } else {
                    &&& final(self).entries@.len() == old(self).entries@.len()
                    &&& (forall|j: int|
                        0 <= j < old(self).entries@.len() && j != at
                            ==> #[trigger] final(self).entries@[j] == old(self).entries@[j])
                    &&& final(self).entries@[at].0 == old(self).entries@[at].0
                    &&& final(self).entries@[at].1@ == value@
                }
            }),
    {
        let ghost es0 = self.entries@;
        let n = self.entries.len();
        let mut i: usize = 0;
        while i < n
            invariant
                i <= n,
                n == self.entries@.len(),
                self.entries@ == es0,
                es0 == old(self).entries@,
                unique_keys(es0),
                forall|j: int| 0 <= j < i ==> (#[trigger] self.entries@[j]).0@ != key@,
            decreases n - i,
        {
            if str_eq(self.entries[i].0.as_str(), key) {
                proof {
                    lemma_find_key_here(es0, key@, i as int);
                }
                let entry = self.entries.remove(i);
                self.entries.insert(i, (entry.0, value.to_owned()));
                proof {
                    let es1 = self.entries@;
                    assert(es1 =~= es0.update(i as int, es1[i as int]));
                    assert(es1[i as int].0 == es0[i as int].0);
                    assert forall|p: int, q: int|
                        0 <= p < q < es1.len() implies (#[trigger] es1[p]).0@
                        != (#[trigger] es1[q]).0@ by {
                        assert(es1[p].0@ == es0[p].0@);
                        assert(es1[q].0@ == es0[q].0@);
                    }
                }
                return ;
            }
            i += 1;
        }
        proof {
            lemma_find_key_none(es0, key@);
        }
        self.entries.push((key.to_owned(), value.to_owned()));
        proof {
            assert(self.entries@.drop_last() =~= es0);
            assert forall|p: int, q: int|
                0 <= p < q < self.entries@.len() implies (#[trigger] self.entries@[p]).0@
                != (#[trigger] self.entries@[q]).0@ by {
                if q < es0.len() {
                    assert(self.entries@[p] == es0[p]);
                    assert(self.entries@[q] == es0[q]);
                } else {
                    assert(self.entries@[p] == es0[p]);
                    assert(self.entries@[q].0@ == key@);
                }
            }
        }
    }

    /// Removes the entry stored under a key, if any; every other entry stays,
    /// in order.
    pub fn remove(&mut self, key: &str)
        requires
            old(self).wf(),
        ensures
            final(self).wf(),
            ({
                let at = spec_find_key(old(self).entries@, key@);
                if at < 0 {
                    final(self).entries@ == old(self).entries@
                } else {
                    final(self).entries@ == old(self).entries@.remove(at)
                }
            }),
    {
        let ghost es0 = self.entries@;
        let n = self.entries.len();
        let mut i: usize = 0;
        while i < n
            invariant
                i <= n,
                n == self.entries@.len(),
                self.entries@ == es0,
                es0 == old(self).entries@,
                unique_keys(es0),
                forall|j: int| 0 <= j < i ==> (#[trigger] self.entries@[j]).0@ != key@,
            decreases n - i,
        {
            if str_eq(self.entries[i].0.as_str(), key) {
                proof {
                    lemma_find_key_here(es0, key@, i as int);
                }
                let _ = self.entries.remove(i);
                proof {
                    assert forall|p: int, q: int|
                        0 <= p < q < self.entries@.len() implies (#[trigger] self.entries@[p]).0@
                        != (#[trigger] self.entries@[q]).0@ by {
                        let p0: int = if p < i {
                            p
                        } else {
                            p + 1
                        };
                        let q0: int = if q < i {
                            q
                        } else {
                            q + 1
                        };
                        assert(self.entries@[p] == es0[p0]);
                        assert(self.entries@[q] == es0[q0]);
                    }
                }
                return ;
            }
            i += 1;
        }
        proof {
            lemma_find_key_none(es0, key@);
        }
    }

    /// The entries as the host stores them.
    pub fn dump(&self) -> (r: &Vec<(String, String)>)
        ensures
            r == self.entries,
    {
        &self.entries
    }
}

} // verus!
