//! A verified association store keyed by strings.
//!
//! The ledger keeps balances, stakes and contract storage as maps from
//! address strings to values. This store holds the entries in a vector
//! with pairwise-distinct keys and is specified against a `Map` from
//! character sequences to values.

use vstd::prelude::*;
use crate::strutil::str_eq;

verus! {

/// No two entries share a key (compared as character sequences).
pub open spec fn keys_unique<V>(s: Seq<(String, V)>) -> bool {
    forall|i: int, j: int|
        0 <= i < j < s.len() ==> (#[trigger] s[i]).0@ != (#[trigger] s[j]).0@
}

/// The value bound to `key`: the first entry whose key matches, if any.
pub open spec fn kv_find<V>(s: Seq<(String, V)>, key: Seq<char>) -> Option<V>
    decreases s.len(),
{
    if s.len() == 0 {
        None
    } else if s.first().0@ == key {
        Some(s.first().1)
    } else {
        kv_find(s.drop_first(), key)
    }
}

/// The map described by an entry sequence.
pub open spec fn kv_map<V>(s: Seq<(String, V)>) -> Map<Seq<char>, V> {
    Map::new(|k: Seq<char>| kv_find(s, k) is Some, |k: Seq<char>| kv_find(s, k)->Some_0)
}

/// If no entry before `i` matches `key` and entry `i` does, the store
/// binds `key` to entry `i`'s value.
pub proof fn lemma_kv_find_first_match<V>(s: Seq<(String, V)>, key: Seq<char>, i: int)
    requires
        0 <= i < s.len(),
        s[i].0@ == key,
        forall|j: int| 0 <= j < i ==> (#[trigger] s[j]).0@ != key,
    ensures
        kv_find(s, key) == Some(s[i].1),
    decreases i,
{
    if i > 0 {
        lemma_kv_find_first_match(s.drop_first(), key, i - 1);
    }
}

/// If no entry matches `key`, the store binds nothing to it.
pub proof fn lemma_kv_find_absent<V>(s: Seq<(String, V)>, key: Seq<char>)
    requires
        forall|j: int| 0 <= j < s.len() ==> (#[trigger] s[j]).0@ != key,
    ensures
        kv_find(s, key) is None,
    decreases s.len(),
{
    if s.len() > 0 {
        lemma_kv_find_absent(s.drop_first(), key);
    }
}

/// A key is bound exactly when some entry carries it.
pub proof fn lemma_kv_find_exists<V>(s: Seq<(String, V)>, key: Seq<char>)
    ensures
        kv_find(s, key) is Some <==> (exists|j: int|
            0 <= j < s.len() && (#[trigger] s[j]).0@ == key),
    decreases s.len(),
{
    if s.len() > 0 {
        lemma_kv_find_exists(s.drop_first(), key);
        if s.first().0@ != key {
            if exists|j: int| 0 <= j < s.len() && (#[trigger] s[j]).0@ == key {
                let j = choose|j: int| 0 <= j < s.len() && (#[trigger] s[j]).0@ == key;
                assert(s.drop_first()[j - 1].0@ == key);
            }
            if exists|j: int| 0 <= j < s.drop_first().len() && (#[trigger] s.drop_first()[j]).0@
                == key {
                let j = choose|j: int|
                    0 <= j < s.drop_first().len() && (#[trigger] s.drop_first()[j]).0@ == key;
                assert(s[j + 1].0@ == key);
            }
        }
    }
}

/// Appending an entry changes only the binding of keys the sequence did
/// not already bind.
pub proof fn lemma_kv_find_push<V>(s: Seq<(String, V)>, p: (String, V), key: Seq<char>)
    ensures
        kv_find(s.push(p), key) == if kv_find(s, key) is Some {
            kv_find(s, key)
        } else if p.0@ == key {
            Some(p.1)
        } else {
            None
        },
    decreases s.len(),
{
    if s.len() == 0 {
        assert(s.push(p).drop_first() =~= s);
    } else {
        assert(s.push(p).drop_first() =~= s.drop_first().push(p));
        lemma_kv_find_push(s.drop_first(), p, key);
    }
}

/// Removing an entry whose key differs from `key` leaves the binding of
/// `key` unchanged.
pub proof fn lemma_kv_find_remove<V>(s: Seq<(String, V)>, i: int, key: Seq<char>)
    requires
        0 <= i < s.len(),
        s[i].0@ != key,
    ensures
        kv_find(s.remove(i), key) == kv_find(s, key),
    decreases s.len(),
{
    if i == 0 {
        assert(s.remove(0) =~= s.drop_first());
    } else {
        assert(s.remove(i).drop_first() =~= s.drop_first().remove(i - 1));
        if s.first().0@ != key {
            lemma_kv_find_remove(s.drop_first(), i - 1, key);
        }
    }
}

/// An association store from address strings to values, with
/// pairwise-distinct keys.
pub struct KvStore<V> {
    entries: Vec<(String, V)>,
}

impl<V> View for KvStore<V> {
    type V = Map<Seq<char>, V>;

    closed spec fn view(&self) -> Map<Seq<char>, V> {
        kv_map(self.entries@)
    }
}

impl<V> KvStore<V> {
    /// The underlying entry sequence.
    pub closed spec fn entries_seq(&self) -> Seq<(String, V)> {
        self.entries@
    }

    /// The entries hold pairwise-distinct keys and describe the map view.
    pub open spec fn wf(&self) -> bool {
        &&& keys_unique(self.entries_seq())
        &&& self@ == kv_map(self.entries_seq())
    }

    /// Creates an empty store.
    pub fn new() -> (r: Self)
        ensures
            r.wf(),
            r@ =~= Map::<Seq<char>, V>::empty(),
            r.entries_seq() == Seq::<(String, V)>::empty(),
    {
        KvStore { entries: Vec::new() }
    }

    /// The borrowed entry list, in insertion order.
    pub fn entries(&self) -> (r: &Vec<(String, V)>)
        ensures
            r@ == self.entries_seq(),
    {
        &self.entries
    }

    /// The index of the first entry whose key matches, if any.
    fn find_index(&self, key: &str) -> (r: Option<usize>)
        ensures
            match r {
                Some(i) => {
                    &&& i < self.entries_seq().len()
                    &&& self.entries_seq()[i as int].0@ == key@
                    &&& forall|j: int|
                        0 <= j < i ==> (#[trigger] self.entries_seq()[j]).0@ != key@
                },
                None => forall|j: int|
                    0 <= j < self.entries_seq().len() ==> (#[trigger] self.entries_seq()[j]).0@
                        != key@,
            },
    {
        let n = self.entries.len();
        for i in 0..n
            invariant
                n == self.entries@.len(),
                forall|j: int| 0 <= j < i ==> (#[trigger] self.entries@[j]).0@ != key@,
        {
            if str_eq(self.entries[i].0.as_str(), key) {
                return Some(i);
            }
        }
        None
    }

    /// Looks up the value bound to `key`.
    pub fn get(&self, key: &str) -> (r: Option<&V>)
        ensures
            match r {
                Some(v) => self@.dom().contains(key@) && *v == self@[key@],
                None => !self@.dom().contains(key@),
            },
    {
        match self.find_index(key) {
            Some(i) => {
                proof {
                    lemma_kv_find_first_match(self.entries_seq(), key@, i as int);
                }
                Some(&self.entries[i].1)
            },
            None => {
                proof {
                    lemma_kv_find_absent(self.entries_seq(), key@);
                }
                None
            },
        }
    }

    /// Whether `key` is bound.
    pub fn contains(&self, key: &str) -> (r: bool)
        ensures
            r == self@.dom().contains(key@),
    {
        self.get(key).is_some()
    }

    /// Binds `key` to `value`, replacing any previous binding.
    pub fn set(&mut self, key: &str, value: V)
        requires
            old(self).wf(),
        ensures
            final(self).wf(),
            final(self)@ == old(self)@.insert(key@, value),
    {
        let ghost s0 = self.entries@;
        match self.find_index(key) {
            Some(i) => {
                let pair = self.entries.remove(i);
                self.entries.push((pair.0, value));
                proof {
                    let s1 = s0.remove(i as int).push((s0[i as int].0, value));
                    assert(self.entries@ =~= s1);
                    assert forall|k: Seq<char>| true implies #[trigger] kv_find(s1, k) == (
                    if k == key@ {
                        Some(value)
                    } else {
                        kv_find(s0, k)
                    }) by {
                        lemma_kv_find_push(s0.remove(i as int), (s0[i as int].0, value), k);
                        if k == key@ {
                            assert forall|j: int|
                                0 <= j < s0.remove(i as int).len() implies (#[trigger] s0.remove(
                                i as int,
                            )[j]).0@ != k by {
                                if j < i {
                                    assert(s0.remove(i as int)[j] == s0[j]);
                                } else {
                                    assert(s0.remove(i as int)[j] == s0[j + 1]);
                                }
                            }
                            lemma_kv_find_absent(s0.remove(i as int), k);
                        } else {
                            lemma_kv_find_remove(s0, i as int, k);
                        }
                    }
                    assert(keys_unique(s1)) by {
                        assert forall|a: int, b: int|
                            0 <= a < b < s1.len() implies (#[trigger] s1[a]).0@ != (
                        #[trigger] s1[b]).0@ by {
                            let f = |x: int| if x < i { x } else { x + 1 };
                            if b < s1.len() - 1 {
                                assert(s1[a] == s0[f(a)]);
                                assert(s1[b] == s0[f(b)]);
                            } else {
                                assert(s1[b].0@ == key@);
                                assert(s1[a] == s0[f(a)]);
                            }
                        }
                    }
                    assert(final(self)@ =~= old(self)@.insert(key@, value));
                }
            },
            None => {
                proof {
                    lemma_kv_find_absent(s0, key@);
                }
                self.entries.push((key.to_owned(), value));
                proof {
                    let s1 = self.entries@;
                    assert forall|k: Seq<char>| true implies #[trigger] kv_find(s1, k) == (
                    if k == key@ {
                        Some(value)
                    } else {
                        kv_find(s0, k)
                    }) by {
                        lemma_kv_find_push(s0, s1.last(), k);
                    }
                    assert(keys_unique(s1)) by {
                        assert forall|a: int, b: int|
                            0 <= a < b < s1.len() implies (#[trigger] s1[a]).0@ != (
                        #[trigger] s1[b]).0@ by {
                            if b < s1.len() - 1 {
                                assert(s1[a] == s0[a]);
                                assert(s1[b] == s0[b]);
                            } else {
                                assert(s1[a] == s0[a]);
                            }
                        }
                    }
                    assert(final(self)@ =~= old(self)@.insert(key@, value));
                }
            },
        }
    }
}

impl KvStore<u64> {
    /// Builds an independent copy with the same bindings.
    pub fn duplicate(&self) -> (r: Self)
        requires
            self.wf(),
        ensures
            r.wf(),
            r@ == self@,
    {
        let mut entries: Vec<(String, u64)> = Vec::new();
        let n = self.entries.len();
        for i in 0..n
            invariant
                n == self.entries@.len(),
                entries@ =~= self.entries@.take(i as int),
        {
            let key = self.entries[i].0.clone();
            entries.push((key, self.entries[i].1));
            proof {
                assert(entries@ =~= self.entries@.take(i + 1));
            }
        }
        proof {
            assert(entries@ =~= self.entries@);
        }
        KvStore { entries }
    }
}

impl KvStore<Vec<u8>> {
    /// The bindings with their byte contents abstracted to sequences.
    pub open spec fn bytes_view(&self) -> Map<Seq<char>, Seq<u8>> {
        Map::new(|k: Seq<char>| self@.dom().contains(k), |k: Seq<char>| self@[k]@)
    }

    /// Builds an independent copy with the same bindings, compared by
    /// byte content.
    pub fn duplicate(&self) -> (r: Self)
        requires
            self.wf(),
        ensures
            r.wf(),
            r.bytes_view() == self.bytes_view(),
    {
        let mut entries: Vec<(String, Vec<u8>)> = Vec::new();
        let n = self.entries.len();
        for i in 0..n
            invariant
                n == self.entries@.len(),
                entries@.len() == i,
                forall|j: int|
                    0 <= j < i ==> (#[trigger] entries@[j]).0 == self.entries@[j].0
                        && entries@[j].1@ == self.entries@[j].1@,
        {
            let key = self.entries[i].0.clone();
            let value = vstd::slice::slice_to_vec(self.entries[i].1.as_slice());
            entries.push((key, value));
        }
        let r = KvStore { entries };
        proof {
            let s0 = self.entries@;
            let s1 = r.entries@;
            assert(keys_unique(s1));
            assert(r.bytes_view() =~= self.bytes_view()) by {
                assert forall|k: Seq<char>| true implies (kv_find(s1, k) is Some == kv_find(s0, k)
                    is Some) && (kv_find(s1, k) is Some ==> kv_find(s1, k)->Some_0@ == kv_find(
                    s0,
                    k,
                )->Some_0@) by {
                    lemma_kv_find_parallel(s0, s1, k);
                }
            }
        }
        r
    }
}

/// Two entry sequences whose keys agree pairwise and whose byte values
/// agree by content bind every key to equal values.
proof fn lemma_kv_find_parallel(s0: Seq<(String, Vec<u8>)>, s1: Seq<(String, Vec<u8>)>, key: Seq<
    char,
>)
    requires
        s0.len() == s1.len(),
        forall|j: int|
            0 <= j < s0.len() ==> (#[trigger] s1[j]).0 == s0[j].0 && s1[j].1@ == s0[j].1@,
    ensures
        kv_find(s1, key) is Some <==> kv_find(s0, key) is Some,
        kv_find(s1, key) is Some ==> kv_find(s1, key)->Some_0@ == kv_find(s0, key)->Some_0@,
    decreases s0.len(),
{
    if s0.len() > 0 {
        assert(s1.first().0 == s0.first().0);
        if s0.first().0@ != key {
            lemma_kv_find_parallel(s0.drop_first(), s1.drop_first(), key);
        } else {
            assert(s1.first().1@ == s0.first().1@);
        }
    }
}

} // verus!
