//! The storage layer shared by the runtime modules: a map from string
//! account identifiers to values, abstracted as a `Map<Seq<char>, V>`.
//!
//! Absent keys are simply not in the map's domain; the module that owns a
//! `StorageMap` supplies its own default-on-lookup rule (zero, for both
//! balances and nonces).

use vstd::prelude::*;

verus! {

/// A map from account identifiers to values, stored as a list of entries.
/// A lookup returns the first entry whose key matches, so updating that
/// entry in place or appending a fresh key is enough to realise
/// `Map::insert` at the abstract level.
#[derive(Debug)]
pub struct StorageMap<V> {
    entries: Vec<(String, V)>,
}

/// The value stored under key `k`: the first entry whose key matches.
spec fn entries_get<V>(s: Seq<(String, V)>, k: Seq<char>) -> Option<V>
    decreases s.len(),
{
    if s.len() == 0 {
        None
    } else if s[0].0@ == k {
        Some(s[0].1)
    } else {
        entries_get(s.drop_first(), k)
    }
}

impl<V> View for StorageMap<V> {
    type V = Map<Seq<char>, V>;

    closed spec fn view(&self) -> Map<Seq<char>, V> {
        Map::new(
            |k: Seq<char>| entries_get(self.entries@, k) is Some,
            |k: Seq<char>| entries_get(self.entries@, k)->Some_0,
        )
    }
}

/// A key with no match anywhere in the entry list is absent.
proof fn lemma_entries_get_no_match<V>(s: Seq<(String, V)>, k: Seq<char>)
    requires
        forall|j: int| 0 <= j < s.len() ==> s[j].0@ != k,
    ensures
        entries_get(s, k) is None,
    decreases s.len(),
{
    if s.len() > 0 {
        lemma_entries_get_no_match(s.drop_first(), k);
    }
}

/// The first matching entry decides the lookup.
proof fn lemma_entries_get_first_match<V>(s: Seq<(String, V)>, k: Seq<char>, i: int)
    requires
        0 <= i < s.len(),
        forall|j: int| 0 <= j < i ==> s[j].0@ != k,
        s[i].0@ == k,
    ensures
        entries_get(s, k) == Some(s[i].1),
    decreases i,
{
    if i > 0 {
        assert forall|j: int| 0 <= j < i - 1 implies s.drop_first()[j].0@ != k by {
            assert(s.drop_first()[j] == s[j + 1]);
        }
        lemma_entries_get_first_match(s.drop_first(), k, i - 1);
    }
}

/// Overwriting the value of the first entry matching `k` changes the lookup
/// for `k` and no other key.
proof fn lemma_entries_get_update<V>(
    s: Seq<(String, V)>,
    k: Seq<char>,
    i: int,
    v: V,
    k2: Seq<char>,
)
    requires
        0 <= i < s.len(),
        forall|j: int| 0 <= j < i ==> s[j].0@ != k,
        s[i].0@ == k,
    ensures
        entries_get(s.update(i, (s[i].0, v)), k2) == (if k2 == k {
            Some(v)
        } else {
            entries_get(s, k2)
        }),
    decreases i,
{
    let s2 = s.update(i, (s[i].0, v));
    if i == 0 {
        assert(s2.drop_first() =~= s.drop_first());
    } else {
        assert(s2[0] == s[0]);
        assert(s2.drop_first() =~= s.drop_first().update(i - 1, (s.drop_first()[i - 1].0, v)));
        assert forall|j: int| 0 <= j < i - 1 implies s.drop_first()[j].0@ != k by {
            assert(s.drop_first()[j] == s[j + 1]);
        }
        lemma_entries_get_update(s.drop_first(), k, i - 1, v, k2);
    }
}

/// Appending an entry only affects keys that had no match before.
proof fn lemma_entries_get_push<V>(s: Seq<(String, V)>, p: (String, V), k2: Seq<char>)
    ensures
        entries_get(s.push(p), k2) == (if entries_get(s, k2) is Some {
            entries_get(s, k2)
        } else if p.0@ == k2 {
            Some(p.1)
        } else {
            None::<V>
        }),
    decreases s.len(),
{
    if s.len() == 0 {
        reveal_with_fuel(entries_get, 2);
        assert(s.push(p)[0] == p);
        assert(s.push(p).drop_first() =~= Seq::<(String, V)>::empty());
    } else {
        assert(s.push(p)[0] == s[0]);
        assert(s.push(p).drop_first() =~= s.drop_first().push(p));
        lemma_entries_get_push(s.drop_first(), p, k2);
    }
}

impl<V> StorageMap<V> {
    /// An empty storage map: no key has an entry.
    pub fn new() -> (r: Self)
        ensures
            r@ == Map::<Seq<char>, V>::empty(),
    {
        let r = StorageMap { entries: Vec::new() };
        proof {
            assert(r@ =~= Map::<Seq<char>, V>::empty());
        }
        r
    }

    /// Look `k` up; `None` exactly when `k` has never been written.
    pub fn get(&self, k: &String) -> (r: Option<&V>)
        ensures
            match r {
                Some(v) => self@.dom().contains(k@) && *v == self@[k@],
                None => !self@.dom().contains(k@),
            },
    {
        let n = self.entries.len();
        let mut i: usize = 0;
        while i < n
            invariant
                n == self.entries.len(),
                i <= n,
                forall|j: int| 0 <= j < i ==> self.entries@[j].0@ != k@,
            decreases n - i,
        {
            if self.entries[i].0 == *k {
                proof {
                    lemma_entries_get_first_match(self.entries@, k@, i as int);
                }
                return Some(&self.entries[i].1);
            }
            i += 1;
        }
        proof {
            lemma_entries_get_no_match(self.entries@, k@);
        }
        None
    }

    /// Write `v` under `k`, inserting the key if it is new.
    pub fn set(&mut self, k: &String, v: V)
        ensures
            final(self)@ == old(self)@.insert(k@, v),
    {
        let ghost s0 = self.entries@;
        let n = self.entries.len();
        let mut i: usize = 0;
        while i < n
            invariant
                self.entries@ == s0,
                s0 == old(self).entries@,
                n == s0.len(),
                i <= n,
                forall|j: int| 0 <= j < i ==> s0[j].0@ != k@,
            decreases n - i,
        {
            if self.entries[i].0 == *k {
                self.entries[i].1 = v;
                proof {
                    assert(self.entries@ =~= s0.update(i as int, (s0[i as int].0, v)));
                    assert forall|k2: Seq<char>|
                        entries_get(self.entries@, k2) == (if k2 == k@ {
                            Some(v)
                        } else {
                            entries_get(s0, k2)
                        }) by {
                        lemma_entries_get_update(s0, k@, i as int, v, k2);
                    }
                    assert(self@ =~= old(self)@.insert(k@, v));
                }
                return ;
            }
            i += 1;
        }
        self.entries.push((k.clone(), v));
        proof {
            let p = self.entries@[s0.len() as int];
            assert(self.entries@ == s0.push(p));
            assert(p.0@ == k@ && p.1 == v);
            lemma_entries_get_no_match(s0, k@);
            assert forall|k2: Seq<char>|
                entries_get(self.entries@, k2) == (if k2 == k@ {
                    Some(v)
                } else {
                    entries_get(s0, k2)
                }) by {
                lemma_entries_get_push(s0, p, k2);
            }
            assert(self@ =~= old(self)@.insert(k@, v));
        }
    }
}

} // verus!
