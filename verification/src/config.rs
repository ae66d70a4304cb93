use vstd::prelude::*;

verus! {

/// Immutable per-run parameters of one search. Constructed once by the
/// caller and shared read-only by every worker thread.
pub struct SearchConfig {
    /// Regex pattern, or glob pattern when `use_glob` is set.
    pub pattern: String,
    /// Root directory from which the walk starts.
    pub root: String,
    /// When set, hidden (dot-prefixed) entries are skipped.
    pub hide_hidden: bool,
    /// When set, matching is case-sensitive; otherwise the matcher is
    /// compiled case-insensitively.
    pub case_sensitive: bool,
    /// Number of worker threads for the parallel walk.
    pub thread_count: usize,
    /// When set, directory entries are reported as well as files.
    pub keep_dirs: bool,
    /// When set, the default system-path avoidance is disabled.
    pub keep_sys_paths: bool,
    /// Maximum directory depth to descend to, unbounded when `None`.
    pub max_depth: Option<usize>,
    /// When set, `pattern` is a glob and is translated to a regex first.
    pub use_glob: bool,
    /// When set, matching is done against the full path, not the file name.
    pub full_path: bool,
}

impl SearchConfig {
    /// Builds a configuration from its parts.
    pub fn new(
        pattern: &str,
        root: &str,
        hide_hidden: bool,
        case_sensitive: bool,
        thread_count: usize,
        keep_dirs: bool,
        keep_sys_paths: bool,
        max_depth: Option<usize>,
        use_glob: bool,
        full_path: bool,
    ) -> (c: Self)
        ensures
            c.pattern@ == pattern@,
            c.root@ == root@,
            c.hide_hidden == hide_hidden,
            c.case_sensitive == case_sensitive,
            c.thread_count == thread_count,
            c.keep_dirs == keep_dirs,
            c.keep_sys_paths == keep_sys_paths,
            c.max_depth == max_depth,
            c.use_glob == use_glob,
            c.full_path == full_path,
    {
        Self {
            pattern: pattern.to_owned(),
            root: root.to_owned(),
            hide_hidden,
            case_sensitive,
            thread_count,
            keep_dirs,
            keep_sys_paths,
            max_depth,
            use_glob,
            full_path,
        }
    }
}

} // verus!
