//! Ordered key-value lists of strings, with last-wins lookup.
//!
//! The configuration's output-name table and the credential store both hold
//! string pairs. A list is kept with unique keys; `spec_lookup` reads from
//! the end, so it agrees with "the last entry for a key wins" whether or
//! not keys repeat.

use vstd::prelude::*;

verus! {

/// Whether no two entries share a key.
pub open spec fn unique_keys(s: Seq<(String, String)>) -> bool {
    forall|i: int, j: int|
        0 <= i < j < s.len() ==> (#[trigger] s[i]).0@ != (#[trigger] s[j]).0@
}

/// The value stored under `k`: the last entry with that key wins.
pub open spec fn spec_lookup(s: Seq<(String, String)>, k: Seq<char>) -> Option<Seq<char>>
    decreases s.len(),
{
    if s.len() == 0 {
        None
    } else if s.last().0@ == k {
        Some(s.last().1@)
    } else {
        spec_lookup(s.drop_last(), k)
    }
}

/// A key that resolves to a value occurs in the list.
pub proof fn lemma_lookup_some_has_key(s: Seq<(String, String)>, k: Seq<char>)
    requires
        spec_lookup(s, k) is Some,
    ensures
        exists|j: int| 0 <= j < s.len() && (#[trigger] s[j]).0@ == k,
    decreases s.len(),
{
    if s.len() > 0 {
        if s.last().0@ == k {
            assert(s[s.len() - 1].0@ == k);
        } else {
            lemma_lookup_some_has_key(s.drop_last(), k);
            let j = choose|j: int| 0 <= j < s.drop_last().len() && (#[trigger] s.drop_last()[j]).0@
                == k;
            assert(s[j].0@ == k);
        }
    }
}

/// Whether two strings hold the same characters.
pub fn str_eq(a: &str, b: &str) -> (r: bool)
    ensures
        r == (a@ == b@),
{
    let owned_a = a.to_owned();
    let owned_b = b.to_owned();
    owned_a == owned_b
}

/// Fetches a copy of the value stored under `key`, if any.
pub fn lookup(entries: &Vec<(String, String)>, key: &str) -> (r: Option<String>)
    ensures
        match r {
            Some(v) => spec_lookup(entries@, key@) == Some(v@),
            None => spec_lookup(entries@, key@) is None,
        },
{
    let mut i: usize = entries.len();
    proof {
        assert(entries@.take(entries@.len() as int) =~= entries@);
    }
    while i > 0
        invariant
            i <= entries@.len(),
            spec_lookup(entries@, key@) == spec_lookup(entries@.take(i as int), key@),
        decreases i,
    {
        proof {
            assert(entries@.take(i as int).drop_last() =~= entries@.take(i - 1));
            assert(entries@.take(i as int).last() == entries@[i - 1]);
        }
        if str_eq(entries[i - 1].0.as_str(), key) {
            return Some(entries[i - 1].1.clone());
        }
        i = i - 1;
    }
    proof {
        assert(entries@.take(0) =~= Seq::<(String, String)>::empty());
    }
    None
}

/// Removes every entry stored under `key`, keeping the others in order.
pub fn remove_key(entries: &mut Vec<(String, String)>, key: &str)
    requires
        unique_keys(old(entries)@),
    ensures
        unique_keys(final(entries)@),
        forall|j: int|
            0 <= j < final(entries)@.len() ==> (#[trigger] final(entries)@[j]).0@ != key@,
        forall|k: Seq<char>|
            #[trigger] spec_lookup(final(entries)@, k) == if k == key@ {
                None
            } else {
                spec_lookup(old(entries)@, k)
            },
{
    let n = entries.len();
    let mut kept: Vec<(String, String)> = Vec::new();
    let mut i: usize = 0;
    while i < n
        invariant
            i <= n,
            n == entries@.len(),
            entries@ == old(entries)@,
            unique_keys(entries@),
            unique_keys(kept@),
            forall|j: int| 0 <= j < kept@.len() ==> (#[trigger] kept@[j]).0@ != key@,
            forall|j: int|
                0 <= j < kept@.len() ==> spec_lookup(
                    entries@.take(i as int),
                    (#[trigger] kept@[j]).0@,
                ) is Some,
            forall|k: Seq<char>|
                #[trigger] spec_lookup(kept@, k) == if k == key@ {
                    None::<Seq<char>>
                } else {
                    spec_lookup(entries@.take(i as int), k)
                },
        decreases n - i,
    {
        proof {
            assert(entries@.take(i + 1).drop_last() =~= entries@.take(i as int));
            assert(entries@.take(i + 1).last() == entries@[i as int]);
        }
        let ghost prev_kept = kept@;
        let ghost cur_key = entries@[i as int].0@;
        if !str_eq(entries[i].0.as_str(), key) {
            let entry = (entries[i].0.clone(), entries[i].1.clone());
            proof {
                if exists|j: int| 0 <= j < prev_kept.len() && (#[trigger] prev_kept[j]).0@
                    == cur_key {
                    let j = choose|j: int|
                        0 <= j < prev_kept.len() && (#[trigger] prev_kept[j]).0@ == cur_key;
                    assert(spec_lookup(entries@.take(i as int), prev_kept[j].0@) is Some);
                    lemma_lookup_some_has_key(entries@.take(i as int), prev_kept[j].0@);
                    let l = choose|l: int|
                        0 <= l < entries@.take(i as int).len() && (#[trigger] entries@.take(
                            i as int,
                        )[l]).0@ == prev_kept[j].0@;
                    assert(entries@[l].0@ == cur_key);
                }
            }
            kept.push(entry);
            proof {
                assert(kept@.drop_last() =~= prev_kept);
                assert forall|k: Seq<char>|
                    #[trigger] spec_lookup(kept@, k) == if k == key@ {
                        None::<Seq<char>>
                    } else {
                        spec_lookup(entries@.take(i + 1), k)
                    } by {
                    assert(spec_lookup(kept@, k) == if kept@.last().0@ == k {
                        Some(kept@.last().1@)
                    } else {
                        spec_lookup(prev_kept, k)
                    });
                }
                assert forall|j: int|
                    0 <= j < kept@.len() implies spec_lookup(
                    entries@.take(i + 1),
                    (#[trigger] kept@[j]).0@,
                ) is Some by {
                    if j < kept@.len() - 1 {
                        assert(kept@[j] == prev_kept[j]);
                        assert(spec_lookup(entries@.take(i as int), kept@[j].0@) is Some);
                    }
                }
            }
        } else {
            proof {
                assert forall|j: int|
                    0 <= j < kept@.len() implies spec_lookup(
                    entries@.take(i + 1),
                    (#[trigger] kept@[j]).0@,
                ) is Some by {
                    assert(spec_lookup(entries@.take(i as int), kept@[j].0@) is Some);
                }
            }
        }
        i = i + 1;
    }
    proof {
        assert(entries@.take(n as int) =~= entries@);
    }
    *entries = kept;
}

/// Stores `value` under `key`, replacing any previous entry for that key.
pub fn set_entry(entries: &mut Vec<(String, String)>, key: String, value: String)
    requires
        unique_keys(old(entries)@),
    ensures
        unique_keys(final(entries)@),
        forall|k: Seq<char>|
            #[trigger] spec_lookup(final(entries)@, k) == if k == key@ {
                Some(value@)
            } else {
                spec_lookup(old(entries)@, k)
            },
{
    remove_key(entries, key.as_str());
    let ghost removed = entries@;
    let ghost key_view = key@;
    let ghost value_view = value@;
    entries.push((key, value));
    proof {
        assert(entries@.drop_last() =~= removed);
        assert(entries@.last().0@ == key_view);
        assert(entries@.last().1@ == value_view);
        assert forall|k: Seq<char>|
            #[trigger] spec_lookup(entries@, k) == if k == key_view {
                Some(value_view)
            } else {
                spec_lookup(removed, k)
            } by {
            assert(spec_lookup(removed, k) == if k == key_view {
                None::<Seq<char>>
            } else {
                spec_lookup(old(entries)@, k)
            });
        }
        assert forall|a: int, b: int|
            0 <= a < b < entries@.len() implies (#[trigger] entries@[a]).0@ != (
        #[trigger] entries@[b]).0@ by {
            assert(entries@[a] == removed[a]);
            assert(removed[a].0@ != key_view);
            if b < entries@.len() - 1 {
                assert(entries@[b] == removed[b]);
            }
        }
    }
}

} // verus!
