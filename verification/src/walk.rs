use crate::channel::byte_channel;
use crate::channel::recv_path;
use crate::classify::filter_decision;
use crate::classify::sys_filter_bypassed;
use crate::config::SearchConfig;
use crate::error::ScanError;
use crate::pattern::build_matcher;
use crate::pattern::effective_pattern_of;
use crate::pattern::regex_compiles;
use crate::pattern::spec_is_match_all;
use crate::pattern::CompiledMatcher;
use crate::process_entries::entry_depth;
use crate::process_entries::entry_is_dir;
use crate::process_entries::entry_path_string;
use crate::process_entries::process_entry_fullpath;
use crate::process_entries::process_entry_shortpath;
use crate::process_entries::survives_dir_policy;
use crate::process_entries::walk_state_continue;
use crate::process_entries::walk_state_skip;
use crate::process_entries::AsBytes;
use crate::process_entries::EntryOutcome;
use crate::process_entries::FileNameBytes;
use vstd::prelude::*;

verus! {

#[verifier::external_type_specification]
#[verifier::external_body]
pub struct ExWalkBuilder(ignore::WalkBuilder);

#[verifier::external_type_specification]
#[verifier::external_body]
pub struct ExWalkParallel(ignore::WalkParallel);

/// The read-only state one walk shares across all of its workers. Nothing
/// here is mutated after construction, so the workers need no locking.
struct WalkContext {
    matcher: Option<CompiledMatcher>,
    tx: std::sync::mpsc::Sender<Vec<u8>>,
    keep_dirs: bool,
    use_full_path: bool,
}

impl WalkContext {
    /// Handles one visited entry: a per-entry walk error is skipped and
    /// traversal continues; a directory is discarded before any matching
    /// unless directories were requested; what survives is matched and
    /// sent by the processor of the configured mode.
    fn handle(&self, res: Result<ignore::DirEntry, ignore::Error>) -> ignore::WalkState {
        match res {
            Err(_) => walk_state_continue(),
            Ok(entry) => {
                if !survives_dir_policy(self.keep_dirs, entry_is_dir(&entry)) {
                    return walk_state_continue();
                }
                let outcome = if self.use_full_path {
                    process_entry_fullpath(entry.as_true_bytes(), &self.matcher, &self.tx)
                } else {
                    process_entry_shortpath(
                        entry.as_true_bytes(),
                        entry.filename_bytes(),
                        &self.matcher,
                        &self.tx,
                    )
                };
                match outcome {
                    EntryOutcome::NotEmitted => walk_state_continue(),
                    EntryOutcome::Sent => walk_state_continue(),
                    EntryOutcome::ConsumerGone => walk_state_skip(),
                }
            },
        }
    }
}

/// Relies on `ignore::WalkBuilder::new`: a builder for a walk rooted at
/// `root`.
#[verifier::external_body]
fn walk_builder_new(root: &String) -> ignore::WalkBuilder {
    ignore::WalkBuilder::new(root.as_str())
}

/// Relies on `ignore::WalkBuilder::hidden`: when enabled, hidden entries
/// are skipped.
#[verifier::external_body]
fn walk_builder_hidden(b: &mut ignore::WalkBuilder, yes: bool) {
    b.hidden(yes);
}

/// Relies on `ignore::WalkBuilder::filter_entry`: entries for which the
/// predicate returns false are not yielded, and their subtrees are not
/// descended into. The predicate projects the entry's depth and path and
/// runs the verified pruning decision on them.
#[verifier::external_body]
fn walk_builder_filter(b: &mut ignore::WalkBuilder, bypass: bool) {
    b.filter_entry(
        move |entry| filter_decision(bypass, entry_depth(entry), &entry_path_string(entry)),
    );
}

/// Relies on `ignore::WalkBuilder::git_global`: when disabled, the global
/// gitignore file is not consulted.
#[verifier::external_body]
fn walk_builder_git_global(b: &mut ignore::WalkBuilder, yes: bool) {
    b.git_global(yes);
}

/// Relies on `ignore::WalkBuilder::git_ignore`: when disabled, .gitignore
/// files are not consulted.
#[verifier::external_body]
fn walk_builder_git_ignore(b: &mut ignore::WalkBuilder, yes: bool) {
    b.git_ignore(yes);
}

/// Relies on `ignore::WalkBuilder::git_exclude`: when disabled, git
/// exclude files are not consulted.
#[verifier::external_body]
fn walk_builder_git_exclude(b: &mut ignore::WalkBuilder, yes: bool) {
    b.git_exclude(yes);
}

/// Relies on `ignore::WalkBuilder::ignore`: when disabled, .ignore files
/// are not consulted.
#[verifier::external_body]
fn walk_builder_ignore(b: &mut ignore::WalkBuilder, yes: bool) {
    b.ignore(yes);
}

/// Relies on `ignore::WalkBuilder::max_depth`: the walk neither yields
/// nor descends past the given depth.
#[verifier::external_body]
fn walk_builder_max_depth(b: &mut ignore::WalkBuilder, depth: Option<usize>) {
    b.max_depth(depth);
}

/// Relies on `ignore::WalkBuilder::threads`: the number of worker threads
/// to use; zero selects a sensible default.
#[verifier::external_body]
fn walk_builder_threads(b: &mut ignore::WalkBuilder, n: usize) {
    b.threads(n);
}

/// Relies on `ignore::WalkBuilder::build_parallel`: a parallel walker
/// over the configured tree.
#[verifier::external_body]
fn walk_builder_build_parallel(b: &ignore::WalkBuilder) -> ignore::WalkParallel {
    b.build_parallel()
}

/// Relies on `ignore::WalkParallel::run`: calls the factory once per
/// worker and hands every visited entry to the closure — here the
/// verified per-entry handler — until the walk is complete.
#[verifier::external_body]
fn walk_parallel_run(walker: ignore::WalkParallel, ctx: &WalkContext) {
    walker.run(|| Box::new(|res| ctx.handle(res)));
}

/// Runs a search: compiles the pattern, walks the tree in parallel with
/// the configured policies, and returns the receiving end of the result
/// channel, which yields the raw bytes of one matched path per item. The
/// caller drains the channel at its own pace and may stop early; order
/// across workers is unspecified.
pub fn find_files_iter(search_config: &SearchConfig) -> (r: Result<
    std::sync::mpsc::Receiver<Vec<u8>>,
    ScanError,
>)
    ensures
        ({
            let eff = effective_pattern_of(search_config.pattern@, search_config.use_glob);
            &&& (r is Ok <==> eff is Some && (spec_is_match_all(search_config.pattern@)
                || regex_compiles(eff->0, !search_config.case_sensitive)))
            &&& (r matches Err(e) ==> if eff is None {
                e is Other
            } else {
                e is Regex
            })
        }),
{
    let (tx, rx) = byte_channel();

    let matcher = match build_matcher(
        &search_config.pattern,
        search_config.use_glob,
        search_config.case_sensitive,
    ) {
        Ok(m) => m,
        Err(e) => {
            return Err(e);
        },
    };

    let bypass = sys_filter_bypassed(&search_config.root, search_config.keep_sys_paths);

    let mut builder = walk_builder_new(&search_config.root);
    walk_builder_hidden(&mut builder, search_config.hide_hidden);
    walk_builder_filter(&mut builder, bypass);
    walk_builder_git_global(&mut builder, false);
    walk_builder_git_ignore(&mut builder, false);
    walk_builder_git_exclude(&mut builder, false);
    walk_builder_ignore(&mut builder, false);
    walk_builder_max_depth(&mut builder, search_config.max_depth);
    walk_builder_threads(&mut builder, search_config.thread_count);
    let walker = walk_builder_build_parallel(&builder);

    let ctx = WalkContext {
        matcher,
        tx,
        keep_dirs: search_config.keep_dirs,
        use_full_path: search_config.use_glob || search_config.full_path,
    };
    walk_parallel_run(walker, &ctx);
    Ok(rx)
}

/// Runs a search and collects every matched path as raw bytes.
pub fn find_files(
    pattern: &str,
    root: &str,
    hide_hidden: bool,
    case_sensitive: bool,
    thread_count: usize,
    keep_dirs: bool,
    keep_sys_paths: bool,
    max_depth: Option<usize>,
    use_glob: bool,
    full_path: bool,
) -> (r: Result<Vec<Vec<u8>>, ScanError>)
    ensures
        ({
            let eff = effective_pattern_of(pattern@, use_glob);
            &&& (r is Ok <==> eff is Some && (spec_is_match_all(pattern@) || regex_compiles(
                eff->0,
                !case_sensitive,
            )))
            &&& (r matches Err(e) ==> if eff is None {
                e is Other
            } else {
                e is Regex
            })
        }),
{
    let search_config = SearchConfig::new(
        pattern,
        root,
        hide_hidden,
        case_sensitive,
        thread_count,
        keep_dirs,
        keep_sys_paths,
        max_depth,
        use_glob,
        full_path,
    );

    let rx = match find_files_iter(&search_config) {
        Ok(rx) => rx,
        Err(e) => {
            return Err(e);
        },
    };

    let mut out: Vec<Vec<u8>> = Vec::new();
    let mut drained: usize = 0;
    // A run can never queue more paths than the address space holds, so
    // the counter is not the reason the drain ends.
    while drained < usize::MAX
        decreases usize::MAX - drained,
    {
        match recv_path(&rx) {
            Some(path) => out.push(path),
            None => {
                break;
            },
        }
        drained = drained + 1;
    }
    Ok(out)
}

} // verus!

