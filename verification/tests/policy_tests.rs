use scanit::avoid_sys_paths;
use scanit::get_threads;
use scanit::is_avoid_path;
use scanit::resolve_directory;
use scanit::sys_filter_bypassed;
use scanit::SearchConfig;
use scanit::DEPTH_CHECK;
use scanit::DOT_PATTERN;
use scanit::START_PREFIX;

#[test]
fn constants_have_their_documented_values() {
    assert_eq!(DOT_PATTERN, ".");
    assert_eq!(START_PREFIX, "/");
    assert_eq!(DEPTH_CHECK, 1);
}

#[test]
fn avoid_set_members_are_recognised() {
    for p in ["/proc", "/sys", "/tmp", "/run", "/dev", "/sbin"] {
        assert!(is_avoid_path(&p.to_string()), "{p} should be in the avoid set");
    }
    assert!(!is_avoid_path(&"/home".to_string()));
    assert!(!is_avoid_path(&"/proc/cpuinfo".to_string()));
    assert!(!is_avoid_path(&"/Proc".to_string()));
    assert!(!is_avoid_path(&"proc".to_string()));
}

#[test]
fn shallow_avoid_paths_are_pruned() {
    assert!(!avoid_sys_paths(0, &"/proc".to_string()));
    assert!(!avoid_sys_paths(1, &"/sys".to_string()));
    assert!(!avoid_sys_paths(1, &"/sbin".to_string()));
}

#[test]
fn deep_entries_are_always_kept() {
    assert!(avoid_sys_paths(2, &"/proc".to_string()));
    assert!(avoid_sys_paths(100, &"/sys".to_string()));
}

#[test]
fn ordinary_paths_are_kept_at_any_depth() {
    assert!(avoid_sys_paths(0, &"/home".to_string()));
    assert!(avoid_sys_paths(1, &"/usr".to_string()));
}

#[test]
fn bypass_switches_are_independent() {
    // Avoidance is active only from the default root without the
    // keep-system-paths request.
    assert!(!sys_filter_bypassed(&"/".to_string(), false));
    assert!(sys_filter_bypassed(&"/".to_string(), true));
    assert!(sys_filter_bypassed(&"/home".to_string(), false));
    assert!(sys_filter_bypassed(&"/home".to_string(), true));
    assert!(sys_filter_bypassed(&".".to_string(), false));
}

#[test]
fn resolve_directory_prefers_the_current_directory() {
    assert_eq!(resolve_directory(true, Some("/home/me".to_string()), None), "/home/me");
    assert_eq!(
        resolve_directory(true, Some("/home/me".to_string()), Some("/opt".to_string())),
        "/home/me"
    );
    assert_eq!(resolve_directory(true, None, None), ".");
}

#[test]
fn resolve_directory_falls_back_to_the_default_root() {
    assert_eq!(resolve_directory(false, None, Some("/opt".to_string())), "/opt");
    assert_eq!(resolve_directory(false, Some("/home/me".to_string()), None), "/");
    assert_eq!(resolve_directory(false, None, None), "/");
}

#[test]
fn get_threads_uses_the_detected_count() {
    assert_eq!(get_threads(Some(8)), 8);
    assert_eq!(get_threads(Some(1)), 1);
    assert_eq!(get_threads(Some(0)), 0);
    assert_eq!(get_threads(None), 1);
}

#[test]
fn search_config_keeps_its_parts() {
    let c = SearchConfig::new("p.*", "/srv", true, true, 4, true, true, Some(3), true, true);
    assert_eq!(c.pattern, "p.*");
    assert_eq!(c.root, "/srv");
    assert!(c.hide_hidden);
    assert!(c.case_sensitive);
    assert_eq!(c.thread_count, 4);
    assert!(c.keep_dirs);
    assert!(c.keep_sys_paths);
    assert_eq!(c.max_depth, Some(3));
    assert!(c.use_glob);
    assert!(c.full_path);

    let d = SearchConfig::new("x", ".", false, false, 1, false, false, None, false, false);
    assert_eq!(d.max_depth, None);
    assert!(!d.use_glob);
}

#[test]
fn dir_policy_discards_directories_unless_requested() {
    assert!(scanit::survives_dir_policy(false, false));
    assert!(!scanit::survives_dir_policy(false, true));
    assert!(scanit::survives_dir_policy(true, true));
    assert!(scanit::survives_dir_policy(true, false));
}

#[test]
fn filter_decision_combines_bypass_and_avoidance() {
    assert!(scanit::filter_decision(true, 0, &"/proc".to_string()));
    assert!(!scanit::filter_decision(false, 0, &"/proc".to_string()));
    assert!(scanit::filter_decision(false, 2, &"/proc".to_string()));
    assert!(scanit::filter_decision(false, 0, &"/home".to_string()));
}
