//! Parallel file-path search engine.
//!
//! Given a root directory, a pattern (regex or glob) and a set of traversal
//! policies, the engine walks the filesystem tree concurrently, tests each
//! entry against the pattern, and streams the matching paths as raw bytes
//! over a channel.

mod channel;
mod classify;
mod config;
mod constants;
mod convenience_functions;
mod error;
mod pattern;
mod process_entries;
mod walk;

pub use classify::avoid_sys_paths;
pub use classify::filter_decision;
pub use classify::is_avoid_path;
pub use classify::lemma_avoid_path_pruned;
pub use classify::lemma_bypass_disables_avoidance;
pub use classify::lemma_deep_entries_kept;
pub use classify::spec_avoid_sys_paths;
pub use classify::spec_filter_allows;
pub use classify::spec_is_avoid_path;
pub use classify::spec_sys_filter_bypassed;
pub use classify::sys_filter_bypassed;
pub use config::SearchConfig;
pub use constants::DEPTH_CHECK;
pub use constants::DOT_PATTERN;
pub use constants::START_PREFIX;
pub use convenience_functions::escape_regex_string;
pub use convenience_functions::escaped;
pub use convenience_functions::escaped_char;
pub use convenience_functions::get_threads;
pub use convenience_functions::is_regex_meta;
pub use convenience_functions::resolve_directory;
pub use error::ScanError;
pub use pattern::CompiledMatcher;
pub use pattern::build_matcher;
pub use pattern::build_regex;
pub use pattern::effective_pattern_of;
pub use pattern::glob_regex_of;
pub use pattern::is_match_all;
pub use pattern::process_glob_regex;
pub use pattern::regex_compiles;
pub use pattern::regex_match;
pub use pattern::spec_is_match_all;
pub use process_entries::AsBytes;
pub use process_entries::EntryOutcome;
pub use process_entries::FileNameBytes;
pub use process_entries::lemma_emit_function_of_target;
pub use process_entries::lemma_emit_matches_mode_target;
pub use process_entries::lemma_same_pattern_same_verdict;
pub use process_entries::lemma_sentinel_accepts_all;
pub use process_entries::lemma_sentinel_emits_non_directories;
pub use process_entries::process_entry_fullpath;
pub use process_entries::process_entry_shortpath;
pub use process_entries::should_emit;
pub use process_entries::spec_entry_emitted;
pub use process_entries::spec_match_target;
pub use process_entries::spec_should_emit;
pub use process_entries::survives_dir_policy;
pub use walk::find_files;
pub use walk::find_files_iter;
