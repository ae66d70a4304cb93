use scanit::build_regex;
use scanit::find_files;
use scanit::find_files_iter;
use scanit::process_entry_fullpath;
use scanit::process_entry_shortpath;
use scanit::EntryOutcome;
use scanit::ScanError;
use scanit::SearchConfig;

fn run(
    pattern: &str,
    root: &str,
    thread_count: usize,
    keep_dirs: bool,
    max_depth: Option<usize>,
    use_glob: bool,
    full_path: bool,
) -> Vec<String> {
    let mut out: Vec<String> = find_files(
        pattern,
        root,
        true,
        true,
        thread_count,
        keep_dirs,
        false,
        max_depth,
        use_glob,
        full_path,
    )
    .unwrap()
    .into_iter()
    .map(|bytes| String::from_utf8(bytes).unwrap())
    .collect();
    out.sort();
    out
}

#[test]
fn finds_a_known_file_by_short_name() {
    let found = run("^lib\\.rs$", "src", 2, false, None, false, false);
    assert!(found.contains(&"src/lib.rs".to_string()), "{found:?}");
}

#[test]
fn full_path_mode_matches_the_whole_path() {
    let found = run("^src/lib\\.rs$", "src", 2, false, None, false, true);
    assert_eq!(found, vec!["src/lib.rs".to_string()]);

    // In short-name mode the same pattern can match no file name.
    let none = run("^src/lib\\.rs$", "src", 2, false, None, false, false);
    assert!(none.is_empty(), "{none:?}");
}

#[test]
fn sentinel_yields_the_same_set_as_match_everything() {
    // The sentinel bypasses matching; a regex accepting every name must
    // select exactly the same entries.
    let sentinel = run(".", "src", 2, false, None, false, false);
    let everything = run(".*", "src", 2, false, None, false, false);
    assert_eq!(sentinel, everything);
    assert!(sentinel.contains(&"src/lib.rs".to_string()));
}

#[test]
fn directories_are_kept_only_on_request() {
    let files_only = run(".", "src", 2, false, None, false, false);
    assert!(!files_only.contains(&"src".to_string()));

    let with_dirs = run(".", "src", 2, true, None, false, false);
    assert!(with_dirs.contains(&"src".to_string()));
    for f in &files_only {
        assert!(with_dirs.contains(f), "{f} lost when keeping directories");
    }
}

#[test]
fn max_depth_limits_what_is_yielded() {
    let shallow = run(".", ".", 2, false, Some(1), false, false);
    for p in &shallow {
        let separators = p.matches('/').count();
        assert!(separators <= 1, "{p} is deeper than the depth limit");
    }
    assert!(!shallow.contains(&"./src/lib.rs".to_string()));

    let deeper = run(".", "src", 2, false, Some(1), false, false);
    assert!(deeper.contains(&"src/lib.rs".to_string()));
}

#[test]
fn zero_max_depth_yields_only_the_root() {
    let only_root = run(".", "src", 2, true, Some(0), false, false);
    assert_eq!(only_root, vec!["src".to_string()]);

    let nothing = run(".", "src", 2, false, Some(0), false, false);
    assert!(nothing.is_empty(), "{nothing:?}");
}

#[test]
fn glob_mode_selects_by_glob() {
    let rs = run("*.rs", "src", 2, false, None, true, false);
    assert!(rs.contains(&"src/lib.rs".to_string()));
    for p in &rs {
        assert!(p.ends_with(".rs"), "{p} does not fit the glob");
    }
    let none = run("*.nothing-here", "src", 2, false, None, true, false);
    assert!(none.is_empty());
}

#[test]
fn thread_count_does_not_change_the_result_set() {
    let one = run("\\.rs$", "src", 1, false, None, false, false);
    let many = run("\\.rs$", "src", 4, false, None, false, false);
    assert_eq!(one, many);
    assert!(!one.is_empty());
}

#[test]
fn repeated_runs_yield_the_same_set() {
    let first = run("\\.rs$", "src", 2, false, None, false, false);
    let second = run("\\.rs$", "src", 2, false, None, false, false);
    assert_eq!(first, second);
}

#[test]
fn consumer_cap_limits_what_is_pulled() {
    let config = SearchConfig::new(".", ".", true, true, 2, false, false, None, false, false);
    let rx = find_files_iter(&config).unwrap();
    let capped: Vec<Vec<u8>> = rx.iter().take(2).collect();
    assert_eq!(capped.len(), 2);
}

#[test]
fn consumer_cap_larger_than_the_matches_is_harmless() {
    let config = SearchConfig::new(
        "^lib\\.rs$",
        "src",
        true,
        true,
        2,
        false,
        false,
        None,
        false,
        false,
    );
    let rx = find_files_iter(&config).unwrap();
    let capped: Vec<Vec<u8>> = rx.iter().take(100).collect();
    assert_eq!(capped.len(), 1);
}

#[test]
fn bad_pattern_fails_the_whole_run() {
    let r = find_files("[", "src", true, true, 2, false, false, None, false, false);
    assert!(matches!(r, Err(ScanError::Regex(_))));

    let g = find_files("[abc", "src", true, true, 2, false, false, None, true, false);
    assert!(matches!(g, Err(ScanError::Other(_))));
}

#[test]
fn case_insensitive_walk_finds_differently_cased_names() {
    let sensitive = run("^LIB\\.RS$", "src", 2, false, None, false, false);
    assert!(sensitive.is_empty(), "{sensitive:?}");

    let insensitive: Vec<String> = find_files(
        "^LIB\\.RS$",
        "src",
        true,
        false,
        2,
        false,
        false,
        None,
        false,
        false,
    )
    .unwrap()
    .into_iter()
    .map(|b| String::from_utf8(b).unwrap())
    .collect();
    assert!(insensitive.contains(&"src/lib.rs".to_string()), "{insensitive:?}");
}

#[test]
fn entry_processors_match_their_mode_target_and_send_the_full_path() {
    let (tx, rx) = std::sync::mpsc::channel::<Vec<u8>>();
    let m = Some(build_regex("^lib\\.rs$", true).unwrap());

    // Short mode matches the final component and sends the full path.
    let sent = process_entry_shortpath(b"src/lib.rs".to_vec(), b"lib.rs".to_vec(), &m, &tx);
    assert!(matches!(sent, EntryOutcome::Sent));
    assert_eq!(rx.try_recv().unwrap(), b"src/lib.rs".to_vec());

    // Full mode matches against the whole path, which this pattern rejects.
    let rejected = process_entry_fullpath(b"src/lib.rs".to_vec(), &m, &tx);
    assert!(matches!(rejected, EntryOutcome::NotEmitted));
    assert!(rx.try_recv().is_err());

    // Short mode rejects by the final component alone.
    let by_name = process_entry_shortpath(b"src/main.py".to_vec(), b"main.py".to_vec(), &m, &tx);
    assert!(matches!(by_name, EntryOutcome::NotEmitted));

    // Once the consumer is gone, a match becomes the stop signal.
    drop(rx);
    let stopped = process_entry_shortpath(b"src/lib.rs".to_vec(), b"lib.rs".to_vec(), &m, &tx);
    assert!(matches!(stopped, EntryOutcome::ConsumerGone));
}
