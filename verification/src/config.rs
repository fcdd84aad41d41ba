use std::collections::HashSet;
use vstd::prelude::*;

verus! {

broadcast use vstd::std_specs::hash::group_hash_axioms;

/// Seconds between two refreshes of the status message when the
/// configuration does not give an interval.
pub open spec fn default_interval_secs() -> u64 {
    60
}

/// The interval used when the configuration names none.
pub fn default_status_update_interval() -> (secs: u64)
    ensures
        secs == default_interval_secs(),
{
    60
}

/// Whether a forum may start the workflow: an empty allow-list admits every
/// forum, otherwise the forum must be listed.
pub open spec fn forum_allowed(allowed: Set<u64>, forum: u64) -> bool {
    allowed.len() == 0 || allowed.contains(forum)
}

/// Decides whether threads of `forum` are handled, given the configured
/// allow-list.
pub fn is_forum_allowed(allowed: &HashSet<u64>, forum: u64) -> (ok: bool)
    ensures
        ok == forum_allowed(allowed@, forum),
{
    allowed.len() == 0 || allowed.contains(&forum)
}

/// Puts a forum on the allow-list and says whether it was missing before.
pub fn add_forum(allowed: &mut HashSet<u64>, forum: u64) -> (added: bool)
    ensures
        added == !old(allowed)@.contains(forum),
        final(allowed)@ == old(allowed)@.insert(forum),
{
    allowed.insert(forum)
}

/// Takes a forum off the allow-list and says whether it was on it.
pub fn remove_forum(allowed: &mut HashSet<u64>, forum: u64) -> (removed: bool)
    ensures
        removed == old(allowed)@.contains(forum),
        final(allowed)@ == old(allowed)@.remove(forum),
{
    allowed.remove(&forum)
}

/// Empties the allow-list, so that every forum is handled again, and says
/// how many forums were on it.
pub fn clear_forums(allowed: &mut HashSet<u64>) -> (count: usize)
    ensures
        count == old(allowed)@.len(),
        final(allowed)@ == Set::<u64>::empty(),
{
    let count = allowed.len();
    allowed.clear();
    count
}

} // verus!
