use crate::constants::DEPTH_CHECK;
use crate::constants::START_PREFIX;
use vstd::prelude::*;

verus! {

/// Whether `p` is one of the absolute system paths excluded from results
/// by default: traversing them is expensive or risky, and they are only
/// worth avoiding at the top of the tree.
pub open spec fn spec_is_avoid_path(p: Seq<char>) -> bool {
    ||| p == "/proc"@
    ||| p == "/sys"@
    ||| p == "/tmp"@
    ||| p == "/run"@
    ||| p == "/dev"@
    ||| p == "/sbin"@
}

/// Tests membership in the avoid set.
pub fn is_avoid_path(path: &String) -> (r: bool)
    ensures
        r == spec_is_avoid_path(path@),
{
    *path == "/proc".to_owned() || *path == "/sys".to_owned() || *path == "/tmp".to_owned()
        || *path == "/run".to_owned() || *path == "/dev".to_owned() || *path == "/sbin".to_owned()
}

/// Whether an entry survives system-path avoidance: entries deeper than
/// the shallow threshold always do (they cannot literally equal a
/// top-level system path), and a shallow entry does exactly when its path
/// is not in the avoid set.
pub open spec fn spec_avoid_sys_paths(depth: int, path: Seq<char>) -> bool {
    depth > DEPTH_CHECK || !spec_is_avoid_path(path)
}

/// The avoidance decision for one entry: `true` keeps the entry, `false`
/// prunes it together with its whole subtree.
pub fn avoid_sys_paths(depth: usize, path: &String) -> (r: bool)
    ensures
        r == spec_avoid_sys_paths(depth as int, path@),
{
    if depth > DEPTH_CHECK {
        return true;
    }
    !is_avoid_path(path)
}

/// Whether system-path avoidance is switched off for a run. The two
/// conditions are independent bypass switches: a root other than the
/// default top-level prefix (the user has already scoped the search away
/// from the danger zone), or an explicit request to keep system paths.
pub open spec fn spec_sys_filter_bypassed(root: Seq<char>, keep_sys_paths: bool) -> bool {
    root != START_PREFIX@ || keep_sys_paths
}

/// Computes the bypass switch of a run from its configuration.
pub fn sys_filter_bypassed(root: &String, keep_sys_paths: bool) -> (r: bool)
    ensures
        r == spec_sys_filter_bypassed(root@, keep_sys_paths),
{
    if keep_sys_paths {
        return true;
    }
    let prefix: String = START_PREFIX.to_owned();
    !(*root == prefix)
}

/// The full pruning decision the walk applies to one entry before
/// descending into it.
pub open spec fn spec_filter_allows(bypass: bool, depth: int, path: Seq<char>) -> bool {
    bypass || spec_avoid_sys_paths(depth, path)
}

/// Computes the pruning decision from one entry's depth and path.
pub fn filter_decision(bypass: bool, depth: usize, path: &String) -> (r: bool)
    ensures
        r == spec_filter_allows(bypass, depth as int, path@),
{
    if bypass {
        true
    } else {
        avoid_sys_paths(depth, path)
    }
}

/// With avoidance active (no bypass switch set), a shallow entry whose
/// path is a member of the avoid set is pruned, so neither it nor any
/// descendant of it can be yielded.
pub proof fn lemma_avoid_path_pruned(bypass: bool, depth: int, path: Seq<char>)
    requires
        !bypass,
        depth <= DEPTH_CHECK,
        spec_is_avoid_path(path),
    ensures
        !spec_filter_allows(bypass, depth, path),
{
}

/// Either bypass switch alone disables avoidance entirely: every entry
/// passes the filter, avoid-set member or not.
pub proof fn lemma_bypass_disables_avoidance(
    root: Seq<char>,
    keep_sys_paths: bool,
    depth: int,
    path: Seq<char>,
)
    requires
        spec_sys_filter_bypassed(root, keep_sys_paths),
    ensures
        spec_filter_allows(spec_sys_filter_bypassed(root, keep_sys_paths), depth, path),
{
}

/// Entries deeper than the shallow threshold are never pruned by
/// avoidance, whatever their path: deep paths cannot equal a top-level
/// system path.
pub proof fn lemma_deep_entries_kept(bypass: bool, depth: int, path: Seq<char>)
    requires
        depth > DEPTH_CHECK,
    ensures
        spec_filter_allows(bypass, depth, path),
{
}

} // verus!
