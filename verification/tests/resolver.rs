//! Command-resolution behavior over filesystem snapshots.

use mcp_core::fsmodel::FsSnapshot;
use mcp_core::runtime::{RuntimeManager, RuntimeSource};
use mcp_core::system::{
    check_command, check_commands, dedup_existing_dirs, homebrew_node_opt_bin_entries,
    login_shell_path_entries, platform_path_entries, SystemError,
};

fn empty_fs() -> FsSnapshot {
    FsSnapshot { files: vec![], dirs: vec![], path_dirs: vec![], extra_path_dirs: vec![] }
}

#[test]
fn finds_managed_command_in_component_current_bin() {
    let root = "/rt".to_string();
    let node_path = "/rt/node/current/bin/node".to_string();
    let mut fs = empty_fs();
    fs.files.push(node_path.clone());

    let manager = RuntimeManager::with_runtime_root(root);
    let resolved = manager.find_managed_command_path(&fs, "node");
    assert_eq!(resolved.as_deref(), Some(node_path.as_str()));
}

#[test]
fn normalizes_windows_alias_for_managed_lookup() {
    let root = "/rt".to_string();
    let python_path = "/rt/python/current/python.exe".to_string();
    let mut fs = empty_fs();
    fs.files.push(python_path);

    let manager = RuntimeManager::with_runtime_root(root);
    let resolved = manager.find_managed_command_path(&fs, "python3.exe");
    assert!(resolved.is_some());
}

#[test]
fn merged_path_env_prepends_managed_entries() {
    let root = "/rt".to_string();
    let node_bin = "/rt/node/current/bin".to_string();
    let node_root = "/rt/node/current".to_string();
    let mut fs = empty_fs();
    fs.dirs.push(node_bin.clone());
    fs.dirs.push(node_root.clone());

    let manager = RuntimeManager::with_runtime_root(root);
    let existing = "/usr/bin".to_string();
    let merged = manager.merged_path_entries(&fs, &vec![existing.clone()]);

    assert!(merged.iter().any(|p| p == &node_bin || p == &node_root));
    assert!(merged.iter().any(|p| p == &existing));
}

#[test]
fn merged_path_is_ordered_and_duplicate_free() {
    let root = "/rt".to_string();
    let mut fs = empty_fs();
    fs.dirs.push("/rt/node/current".to_string());
    fs.dirs.push("/rt/node/current/bin".to_string());

    let manager = RuntimeManager::with_runtime_root(root);
    // The caller's PATH repeats a managed entry, holds a duplicate of its
    // own, and an empty entry.
    let existing = vec![
        "/usr/bin".to_string(),
        "/rt/node/current/bin".to_string(),
        "".to_string(),
        "/usr/bin".to_string(),
    ];
    let merged = manager.merged_path_entries(&fs, &existing);
    assert_eq!(
        merged,
        vec![
            "/rt/node/current".to_string(),
            "/rt/node/current/bin".to_string(),
            "/usr/bin".to_string(),
        ]
    );
}

#[test]
fn explicit_path_wins_over_search_path_and_managed() {
    // The same name exists as an explicit path, on the search path, and in
    // the managed bundle: the explicit path is taken as given.
    let mut fs = empty_fs();
    fs.files.push("./tools/node".to_string());
    fs.files.push("/usr/bin/./tools/node".to_string());
    fs.path_dirs.push("/usr/bin".to_string());

    let manager = RuntimeManager::with_runtime_root("/rt".to_string());
    let resolved = manager.resolve_command(&fs, "./tools/node").expect("explicit path must win");
    assert_eq!(resolved.command, "./tools/node".to_string());
    assert_eq!(resolved.source, RuntimeSource::System);
    assert_eq!(resolved.resolved_path.as_deref(), Some("./tools/node"));
}

#[test]
fn explicit_path_missing_file_does_not_fall_back() {
    // A path-like command whose file is absent must not be looked up on the
    // search path or in the managed bundle.
    let mut fs = empty_fs();
    fs.files.push("/usr/bin/./node".to_string());
    fs.files.push("/rt/node/current/node".to_string());
    fs.path_dirs.push("/usr/bin".to_string());

    let manager = RuntimeManager::with_runtime_root("/rt".to_string());
    assert!(manager.resolve_command(&fs, "./node").is_none());
}

#[test]
fn managed_lookup_only_after_system_misses() {
    let manager = RuntimeManager::with_runtime_root("/rt".to_string());

    // Present on the search path: the system hit wins over the managed copy.
    let mut fs = empty_fs();
    fs.path_dirs.push("/usr/bin".to_string());
    fs.files.push("/usr/bin/node".to_string());
    fs.files.push("/rt/node/current/bin/node".to_string());
    let resolved = manager.resolve_command(&fs, "node").expect("system hit expected");
    assert_eq!(resolved.source, RuntimeSource::System);
    assert_eq!(resolved.resolved_path.as_deref(), Some("/usr/bin/node"));

    // Absent from the search path: the managed copy is found.
    let mut fs2 = empty_fs();
    fs2.path_dirs.push("/usr/bin".to_string());
    fs2.files.push("/rt/node/current/bin/node".to_string());
    let resolved2 = manager.resolve_command(&fs2, "node").expect("managed hit expected");
    assert_eq!(resolved2.source, RuntimeSource::Managed);
    assert_eq!(resolved2.resolved_path.as_deref(), Some("/rt/node/current/bin/node"));
}

#[test]
fn resolve_python3_from_managed_bin() {
    let mut fs = empty_fs();
    fs.path_dirs.push("/usr/bin".to_string());
    fs.files.push("/rt/python/current/bin/python3".to_string());

    let manager = RuntimeManager::with_runtime_root("/rt".to_string());
    let resolved = manager.resolve_command(&fs, "python3").expect("managed python3 expected");
    assert_eq!(resolved.source, RuntimeSource::Managed);
    assert_eq!(resolved.resolved_path.as_deref(), Some("/rt/python/current/bin/python3"));
}

#[test]
fn supplemental_path_entries_probed_after_search_path() {
    // The command is only under a supplemental directory: system resolution
    // still finds it, after the ordinary search path misses.
    let mut fs = empty_fs();
    fs.path_dirs.push("/usr/bin".to_string());
    fs.extra_path_dirs.push("/opt/homebrew/bin".to_string());
    fs.files.push("/opt/homebrew/bin/pandoc".to_string());

    let manager = RuntimeManager::with_runtime_root("/rt".to_string());
    let resolved = manager.resolve_command(&fs, "pandoc").expect("supplemental hit expected");
    assert_eq!(resolved.source, RuntimeSource::System);
    assert_eq!(resolved.resolved_path.as_deref(), Some("/opt/homebrew/bin/pandoc"));
}

#[test]
fn capability_snapshot_reports_availability() {
    let mut fs = empty_fs();
    fs.path_dirs.push("/usr/bin".to_string());
    fs.files.push("/usr/bin/node".to_string());

    let manager = RuntimeManager::with_runtime_root("/rt".to_string());
    let caps = manager.get_capabilities(&fs);
    assert_eq!(caps.len(), 8);
    assert_eq!(caps[0].command, "node".to_string());
    assert!(caps[0].available);
    assert_eq!(caps[0].source, Some(RuntimeSource::System));
    assert_eq!(caps[0].resolved_path.as_deref(), Some("/usr/bin/node"));
    // npm is nowhere to be found.
    assert_eq!(caps[1].command, "npm".to_string());
    assert!(!caps[1].available);
    assert_eq!(caps[1].source, None);
    assert_eq!(caps[1].resolved_path, None);
}

#[test]
fn check_commands_probe_the_search_path_only() {
    let mut fs = empty_fs();
    fs.path_dirs.push("/usr/bin".to_string());
    fs.files.push("/usr/bin/git".to_string());
    // A managed copy must not count as a system command.
    fs.files.push("/rt/node/current/bin/node".to_string());

    let results = check_commands(&fs, &vec!["git".to_string(), "node".to_string()]);
    assert_eq!(results.len(), 2);
    assert_eq!(results[0].0, "git".to_string());
    assert!(results[0].1.exists);
    assert_eq!(results[0].1.path.as_deref(), Some("/usr/bin/git"));
    assert_eq!(results[1].0, "node".to_string());
    assert!(!results[1].1.exists);

    let single = check_command(&fs, "git");
    assert!(single.exists);
}

#[test]
fn dedup_keeps_existing_dirs_once_in_first_occurrence_order() {
    let mut fs = empty_fs();
    fs.dirs.push("/a".to_string());
    fs.dirs.push("/b".to_string());

    let paths = vec![
        "/a".to_string(),
        "/missing".to_string(),
        "/b".to_string(),
        "/a".to_string(),
    ];
    let deduped = dedup_existing_dirs(&fs, &paths);
    assert_eq!(deduped, vec!["/a".to_string(), "/b".to_string()]);
}

#[test]
fn platform_entries_keep_only_existing_dirs() {
    let mut fs = empty_fs();
    fs.dirs.push("/opt/homebrew/bin".to_string());
    fs.dirs.push("/extra".to_string());

    let entries = platform_path_entries(&fs, &vec!["/extra".to_string(), "/gone".to_string()]);
    assert_eq!(entries, vec!["/opt/homebrew/bin".to_string(), "/extra".to_string()]);
}

#[test]
fn runtime_root_accessors() {
    let manager = RuntimeManager::new("/rt".to_string());
    assert_eq!(manager.runtime_root(), &"/rt".to_string());
    assert_eq!(manager.runtime_root_display(), "/rt".to_string());
}

#[test]
fn system_errors_flatten_to_readable_strings() {
    assert_eq!(
        SystemError::ExecutionFailed("exit 1".to_string()).message(),
        "Command execution failed: exit 1".to_string()
    );
    assert_eq!(
        SystemError::IoError("broken pipe".to_string()).message(),
        "IO error: broken pipe".to_string()
    );
    assert_eq!(
        SystemError::CommandNotFound("ghost".to_string()).message(),
        "Command not found: ghost".to_string()
    );
}

#[test]
fn merged_path_dedups_even_without_managed_entries() {
    // No managed bundle at all: the output is still duplicate-free and
    // order-preserving, with empty entries dropped.
    let fs = empty_fs();
    let manager = RuntimeManager::with_runtime_root("/rt".to_string());
    let existing = vec![
        "/usr/bin".to_string(),
        "/usr/bin".to_string(),
        "".to_string(),
        "/bin".to_string(),
    ];
    let merged = manager.merged_path_entries(&fs, &existing);
    assert_eq!(merged, vec!["/usr/bin".to_string(), "/bin".to_string()]);
}

#[test]
fn homebrew_node_entries_keep_fixed_and_versioned_bins() {
    let mut fs = empty_fs();
    fs.dirs.push("/opt/homebrew/opt".to_string());
    fs.dirs.push("/opt/homebrew/opt/node/bin".to_string());
    fs.dirs.push("/opt/homebrew/opt/node@20".to_string());
    fs.dirs.push("/opt/homebrew/opt/node@20/bin".to_string());

    let listings = vec![
        (
            "/opt/homebrew/opt".to_string(),
            vec!["node@20".to_string(), "ruby".to_string(), "node@18".to_string()],
        ),
        // This root does not exist: nothing of it is kept.
        ("/usr/local/opt".to_string(), vec!["node@22".to_string()]),
    ];
    let entries = homebrew_node_opt_bin_entries(&fs, &listings);
    // The fixed node/bin entry first, then the existing versioned formula;
    // ruby is not a node formula and node@18 does not exist on disk.
    assert_eq!(
        entries,
        vec![
            "/opt/homebrew/opt/node/bin".to_string(),
            "/opt/homebrew/opt/node@20/bin".to_string(),
        ]
    );
}

#[test]
fn login_shell_entries_take_the_first_usable_report() {
    let mut fs = empty_fs();
    fs.dirs.push("/usr/bin".to_string());
    fs.dirs.push("/opt/x".to_string());

    let reports = vec![
        // The first shell never answered.
        ("/bin/zsh".to_string(), None),
        // The second answered, but nothing it printed exists.
        ("/bin/bash".to_string(), Some(vec!["/gone".to_string()])),
        // The third yields the usable list, deduplicated.
        (
            "/bin/sh".to_string(),
            Some(vec![
                "/usr/bin".to_string(),
                "/gone".to_string(),
                "/usr/bin".to_string(),
                "/opt/x".to_string(),
            ]),
        ),
    ];
    let entries = login_shell_path_entries(&fs, &reports);
    assert_eq!(entries, vec!["/usr/bin".to_string(), "/opt/x".to_string()]);

    // No report yields anything: the result is empty.
    let none: Vec<(String, Option<Vec<String>>)> =
        vec![("/bin/zsh".to_string(), None), ("/bin/bash".to_string(), Some(vec![]))];
    assert!(login_shell_path_entries(&fs, &none).is_empty());
}
