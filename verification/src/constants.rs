use vstd::prelude::*;

verus! {

/// The sentinel "match all" pattern: when the configured pattern equals
/// this value, compiled matching is bypassed and every entry is accepted.
pub const DOT_PATTERN: &'static str = ".";

/// The default top-level search root. System-path avoidance is only active
/// when the search starts here.
pub const START_PREFIX: &'static str = "/";

/// Entries deeper than this can never equal a top-level system path, so the
/// avoid-set membership test is skipped for them.
pub const DEPTH_CHECK: usize = 1;

} // verus!
