//! Selection of the audit-log entry that an event refers to.

use vstd::prelude::*;

verus! {

/// The first of `entries` that satisfies `matches`, or none where no entry
/// does; entries are taken in the order in which the platform listed them.
pub fn select_entry<T, P: Fn(&T) -> bool>(entries: Vec<T>, matches: &P) -> (r: Option<T>)
    requires
        forall|e: &T| #[trigger] matches.requires((e,)),
    ensures
        r is None ==> forall|i: int| 0 <= i < entries.len() ==> matches.ensures((&entries[i],), false),
        r is Some ==> exists|i: int|
            0 <= i < entries.len() && r == Some(entries[i]) && matches.ensures((&entries[i],), true)
                && forall|j: int| 0 <= j < i ==> matches.ensures((&entries[j],), false),
{
    let ghost all = entries@;
    let mut i: usize = 0;
    while i < entries.len()
        invariant
            entries@ == all,
            i <= entries.len(),
            forall|e: &T| #[trigger] matches.requires((e,)),
            forall|j: int| 0 <= j < i ==> matches.ensures((&all[j],), false),
        decreases entries.len() - i,
    {
        let hit = matches(&entries[i]);
        if hit {
            let mut entries = entries;
            let chosen = entries.remove(i);
            assert(chosen == all[i as int]);
            return Some(chosen);
        }
        i = i + 1;
    }
    None
}

} // verus!
