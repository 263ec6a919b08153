//! Resolving "all entries" vs. "a named subset" into the deterministic,
//! sorted list of entry names to process.

use vstd::prelude::*;
use crate::entry::Configuration;
use crate::order::{
    contains_name, distinct_names, insert_sorted, lemma_sorted_distinct_unique, sorted_names,
};

verus! {

/// Whether the request admits the name `n`: an absent request admits every
/// name, a present one only the names it lists.
pub open spec fn requested(ponos: Option<Vec<String>>, n: Seq<char>) -> bool {
    match ponos {
        Option::None => true,
        Option::Some(list) => contains_name(list@, n),
    }
}

/// Decides whether some element of `list` reads `x`.
pub fn names_contain(list: &Vec<String>, x: &String) -> (b: bool)
    ensures
        b == contains_name(list@, x@),
{
    let n = list.len();
    let mut i: usize = 0;
    while i < n
        invariant
            i <= n,
            n == list@.len(),
            forall|k: int| 0 <= k < i ==> (#[trigger] list@[k]@) != x@,
        decreases n - i,
    {
        if list[i] == *x {
            return true;
        }
        i = i + 1;
    }
    false
}

/// The names to process: every configured name the request admits, in
/// ascending lexicographic order, each exactly once. Names requested but
/// not configured are silently dropped.
pub fn ponos_to_manipulate(config: &Configuration, ponos: &Option<Vec<String>>) -> (r: Vec<String>)
    requires
        config.wf(),
    ensures
        sorted_names(r@),
        distinct_names(r@),
        forall|n: Seq<char>|
            #[trigger] contains_name(r@, n) <==> (config.has_name(n) && requested(*ponos, n)),
{
    let mut r: Vec<String> = Vec::new();
    let n = config.entries.len();
    let mut i: usize = 0;
    while i < n
        invariant
            config.wf(),
            i <= n,
            n == config.entries@.len(),
            sorted_names(r@),
            distinct_names(r@),
            forall|m: Seq<char>|
                #[trigger] contains_name(r@, m) <==> (exists|k: int|
                    0 <= k < i && (#[trigger] config.entries@[k].name@) == m) && requested(
                    *ponos,
                    m,
                ),
        decreases n - i,
    {
        let name = &config.entries[i].name;
        let take = match ponos {
            Option::None => true,
            Option::Some(list) => names_contain(list, name),
        };
        if take {
            proof {
                if contains_name(r@, name@) {
                    let k = choose|k: int|
                        0 <= k < i && (#[trigger] config.entries@[k].name@) == name@;
                    assert(config.entries@[k].name@ == config.entries@[i as int].name@);
                    assert(false);
                }
            }
            insert_sorted(&mut r, name.clone());
        }
        proof {
            let idx = i as int;
            assert forall|m: Seq<char>| #[trigger]
                contains_name(r@, m) implies ((exists|k: int|
                0 <= k < idx + 1 && (#[trigger] config.entries@[k].name@) == m) && requested(
                *ponos,
                m,
            )) by {
                if m == config.entries@[idx].name@ {
                    assert(config.entries@[idx].name@ == m);
                }
            }
            assert forall|m: Seq<char>|
                ((exists|k: int| 0 <= k < idx + 1 && (#[trigger] config.entries@[k].name@) == m)
                    && requested(*ponos, m)) implies #[trigger] contains_name(r@, m) by {
                let k = choose|k: int|
                    0 <= k < idx + 1 && (#[trigger] config.entries@[k].name@) == m;
                if k == idx {
                    assert(take);
                }
            }
        }
        i = i + 1;
    }
    r
}

/// Selection is exact and deterministic: any two name lists that are
/// sorted, duplicate-free, and hold precisely the configured names the
/// request admits — as every result of `ponos_to_manipulate` does — read
/// the same, position by position. The selected list is therefore the one
/// sorted enumeration of the intersection, independent of declaration
/// order and of order or duplication in the request.
pub proof fn lemma_selection_deterministic(
    config: Configuration,
    ponos: Option<Vec<String>>,
    r1: Seq<String>,
    r2: Seq<String>,
)
    requires
        sorted_names(r1),
        distinct_names(r1),
        sorted_names(r2),
        distinct_names(r2),
        forall|n: Seq<char>|
            #[trigger] contains_name(r1, n) <==> (config.has_name(n) && requested(ponos, n)),
        forall|n: Seq<char>|
            #[trigger] contains_name(r2, n) <==> (config.has_name(n) && requested(ponos, n)),
    ensures
        r1.len() == r2.len(),
        forall|i: int| 0 <= i < r1.len() ==> (#[trigger] r1[i]@) == r2[i]@,
{
    assert forall|n: Seq<char>| contains_name(r1, n) <==> contains_name(r2, n) by {}
    lemma_sorted_distinct_unique(r1, r2);
}

} // verus!
