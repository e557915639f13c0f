//! Maintenance of the user's display-name table for outputs.
//!
//! The table maps an output's stable identifier to a chosen display name.
//! An update whose name is blank (empty after trimming) deletes the entry;
//! any other update replaces it. Later updates win over earlier ones.

use vstd::prelude::*;

use crate::kvlist::{remove_key, set_entry, spec_lookup, unique_keys};
use crate::text::{trim_of, trimmed};

verus! {

/// The value the name table holds under `k` after applying `updates`, in
/// order, to `existing`: a blank update deletes, any other replaces.
pub open spec fn spec_merged(
    existing: Seq<(String, String)>,
    updates: Seq<(String, String)>,
    k: Seq<char>,
) -> Option<Seq<char>>
    decreases updates.len(),
{
    if updates.len() == 0 {
        spec_lookup(existing, k)
    } else {
        let u = updates.last();
        if u.0@ == k {
            if trim_of(u.1@).len() == 0 {
                None
            } else {
                Some(u.1@)
            }
        } else {
            spec_merged(existing, updates.drop_last(), k)
        }
    }
}

/// Applies a batch of display-name updates to the name table: a blank name
/// removes the output's entry, any other name replaces it.
pub fn merge_output_names(names: &mut Vec<(String, String)>, updates: &Vec<(String, String)>)
    requires
        unique_keys(old(names)@),
    ensures
        unique_keys(final(names)@),
        forall|k: Seq<char>|
            #[trigger] spec_lookup(final(names)@, k) == spec_merged(old(names)@, updates@, k),
{
    let n = updates.len();
    let mut i: usize = 0;
    while i < n
        invariant
            i <= n,
            n == updates@.len(),
            unique_keys(names@),
            forall|k: Seq<char>|
                #[trigger] spec_lookup(names@, k) == spec_merged(
                    old(names)@,
                    updates@.take(i as int),
                    k,
                ),
        decreases n - i,
    {
        proof {
            assert(updates@.take(i + 1).drop_last() =~= updates@.take(i as int));
            assert(updates@.take(i + 1).last() == updates@[i as int]);
        }
        let ghost before = names@;
        let new_name = trimmed(updates[i].1.as_str());
        if new_name.as_str().is_empty() {
            remove_key(names, updates[i].0.as_str());
        } else {
            set_entry(names, updates[i].0.clone(), updates[i].1.clone());
        }
        proof {
            assert forall|k: Seq<char>|
                #[trigger] spec_lookup(names@, k) == spec_merged(
                old(names)@,
                updates@.take(i + 1),
                k,
            ) by {
                assert(spec_lookup(before, k) == spec_merged(
                    old(names)@,
                    updates@.take(i as int),
                    k,
                ));
            }
        }
        i = i + 1;
    }
    proof {
        assert(updates@.take(n as int) =~= updates@);
    }
}

} // verus!
