//! Unit tests of the pure decision logic: classification, search,
//! message assembly, identity resolution, retry policy, and error
//! rendering.

use gastown::backend::GitErrorKind;
use gastown::commit::{amend_precheck, build_message, env_lookup, resolve_author};
use gastown::dashboard::{
    connection_status_for, ConnectionStatus, DashboardError, DashboardFormatter,
};
use gastown::errors::GitError;
use gastown::executor::{
    backoff_delay_ms, classify_outcome, contains_str, is_lock_contention, should_retry,
    CommandOutcome, MAX_MUTATION_ATTEMPTS,
};
use gastown::model::{classify_entries, classify_status, contains_nul, Author, CommitId, StatusKind, Worktree};
use gastown::orchestrator::locate_workspace;
use gastown::repo::{entry_of, lookup_failure, mutation_failure, name_index, worktree_index};

fn wt(name: &str) -> Worktree {
    Worktree {
        name: name.to_string(),
        path: format!("/tmp/{}", name),
        head_ref: None,
        valid: true,
    }
}

#[test]
fn classify_status_each_kind() {
    assert_eq!(classify_status(0x0001), StatusKind::Added); // INDEX_NEW
    assert_eq!(classify_status(0x0002), StatusKind::Modified); // INDEX_MODIFIED
    assert_eq!(classify_status(0x0004), StatusKind::Deleted); // INDEX_DELETED
    assert_eq!(classify_status(0x0080), StatusKind::Untracked); // WT_NEW
    assert_eq!(classify_status(0x0100), StatusKind::Modified); // WT_MODIFIED
    assert_eq!(classify_status(0x0200), StatusKind::Deleted); // WT_DELETED
    assert_eq!(classify_status(0x8000), StatusKind::Conflicted); // CONFLICTED
}

#[test]
fn classify_status_priorities() {
    // Conflict wins over everything.
    assert_eq!(classify_status(0x8000 | 0x0080 | 0x0001), StatusKind::Conflicted);
    // Untracked wins over staged bits.
    assert_eq!(classify_status(0x0080 | 0x0002), StatusKind::Untracked);
    // Added wins over deletions and modifications.
    assert_eq!(classify_status(0x0001 | 0x0200), StatusKind::Added);
    // Deletion wins over plain modification.
    assert_eq!(classify_status(0x0204 | 0x0100), StatusKind::Deleted);
}

#[test]
fn classify_entries_keeps_paths_and_order() {
    let raw = vec![
        ("a.txt".to_string(), 0x0080u32),
        ("b.txt".to_string(), 0x0001u32),
        ("c.txt".to_string(), 0x8000u32),
    ];
    let entries = classify_entries(&raw);
    assert_eq!(entries.len(), 3);
    assert_eq!(entries[0].path, "a.txt");
    assert_eq!(entries[0].kind, StatusKind::Untracked);
    assert_eq!(entries[1].path, "b.txt");
    assert_eq!(entries[1].kind, StatusKind::Added);
    assert_eq!(entries[2].path, "c.txt");
    assert_eq!(entries[2].kind, StatusKind::Conflicted);
}

#[test]
fn contains_str_finds_needles() {
    assert!(contains_str("hello world", "lo wo"));
    assert!(contains_str("hello", "hello"));
    assert!(contains_str("hello", ""));
    assert!(contains_str("abcabc", "cab"));
    assert!(contains_str("suffix match", "match"));
    assert!(!contains_str("hello", "world"));
    assert!(!contains_str("", "a"));
    assert!(!contains_str("ab", "abc"));
    assert!(!contains_str("aab", "ab c"));
}

#[test]
fn nul_detection() {
    assert!(contains_nul("a\u{0}b"));
    assert!(contains_nul("\u{0}"));
    assert!(!contains_nul(""));
    assert!(!contains_nul("plain/path"));
}

#[test]
fn lock_contention_detected() {
    assert!(is_lock_contention(
        "fatal: Unable to create '/rig/.git/index.lock': File exists."
    ));
    assert!(!is_lock_contention("fatal: pathspec 'x' did not match any files"));
}

#[test]
fn classify_outcome_each_case() {
    let operation = "worktree add".to_string();
    let target = "agent-1".to_string();
    let base = CommandOutcome {
        launched: true,
        timed_out: false,
        exit_code: 0,
        stdout: "out".to_string(),
        stderr: String::new(),
        launch_error: String::new(),
    };

    let ok = classify_outcome(&operation, &target, &base).unwrap();
    assert_eq!(ok, "out");

    let mut not_launched = base.clone();
    not_launched.launched = false;
    not_launched.launch_error = "No such file or directory".to_string();
    match classify_outcome(&operation, &target, &not_launched) {
        Err(GitError::LaunchFailed { command, detail }) => {
            assert_eq!(command, "worktree add");
            assert_eq!(detail, "No such file or directory");
        }
        other => panic!("expected LaunchFailed, got {:?}", other),
    }

    let mut timed_out = base.clone();
    timed_out.timed_out = true;
    match classify_outcome(&operation, &target, &timed_out) {
        Err(GitError::Timeout { command }) => assert_eq!(command, "worktree add"),
        other => panic!("expected Timeout, got {:?}", other),
    }

    let mut busy = base.clone();
    busy.exit_code = 128;
    busy.stderr = "fatal: Unable to create '/rig/.git/index.lock': File exists.".to_string();
    match classify_outcome(&operation, &target, &busy) {
        Err(GitError::ResourceBusy { operation, target }) => {
            assert_eq!(operation, "worktree add");
            assert_eq!(target, "agent-1");
        }
        other => panic!("expected ResourceBusy, got {:?}", other),
    }

    let mut failed = base.clone();
    failed.exit_code = 1;
    failed.stderr = "fatal: not a git repository".to_string();
    match classify_outcome(&operation, &target, &failed) {
        Err(GitError::CommandFailed { operation, target, stderr }) => {
            assert_eq!(operation, "worktree add");
            assert_eq!(target, "agent-1");
            assert_eq!(stderr, "fatal: not a git repository");
        }
        other => panic!("expected CommandFailed, got {:?}", other),
    }
}

#[test]
fn retry_policy_is_bounded_and_busy_only() {
    let busy = GitError::ResourceBusy {
        operation: "worktree add".to_string(),
        target: "a".to_string(),
    };
    let failed = GitError::CommandFailed {
        operation: "worktree add".to_string(),
        target: "a".to_string(),
        stderr: String::new(),
    };
    assert!(should_retry(&busy, 0, MAX_MUTATION_ATTEMPTS));
    assert!(should_retry(&busy, 3, MAX_MUTATION_ATTEMPTS));
    assert!(!should_retry(&busy, 4, MAX_MUTATION_ATTEMPTS));
    assert!(!should_retry(&failed, 0, MAX_MUTATION_ATTEMPTS));
    assert!(!should_retry(&busy, 0, 0));
}

#[test]
fn backoff_doubles_then_caps() {
    assert_eq!(backoff_delay_ms(0), 50);
    assert_eq!(backoff_delay_ms(1), 100);
    assert_eq!(backoff_delay_ms(2), 200);
    assert_eq!(backoff_delay_ms(3), 400);
    assert_eq!(backoff_delay_ms(4), 800);
    assert_eq!(backoff_delay_ms(5), 1600);
    assert_eq!(backoff_delay_ms(40), 1600);
}

#[test]
fn name_index_first_match() {
    let names = vec!["a".to_string(), "b".to_string(), "a".to_string()];
    assert_eq!(name_index(&names, &"a".to_string()), Some(0));
    assert_eq!(name_index(&names, &"b".to_string()), Some(1));
    assert_eq!(name_index(&names, &"c".to_string()), None);
    assert_eq!(name_index(&Vec::new(), &"a".to_string()), None);
}

#[test]
fn worktree_index_by_name() {
    let list = vec![wt("one"), wt("two")];
    assert_eq!(worktree_index(&list, &"two".to_string()), Some(1));
    assert_eq!(worktree_index(&list, &"three".to_string()), None);
}

#[test]
fn entry_of_assembles_snapshots() {
    let name = "agent-1".to_string();
    let probe = Some("refs/heads/agent-1".to_string());

    // A live entry carries the probed head reference.
    let live = entry_of(&name, Some(("/ws/agent-1".to_string(), true)), probe.clone()).unwrap();
    assert_eq!(live.name, "agent-1");
    assert_eq!(live.path, "/ws/agent-1");
    assert!(live.valid);
    assert_eq!(live.head_ref.as_deref(), Some("refs/heads/agent-1"));

    // A stale entry never carries one, whatever the probe said.
    let stale = entry_of(&name, Some(("/ws/agent-1".to_string(), false)), probe).unwrap();
    assert!(!stale.valid);
    assert_eq!(stale.head_ref, None);

    // An entry that vanished between listing and lookup yields nothing.
    assert!(entry_of(&name, None, None).is_none());
}

#[test]
fn locate_workspace_decides_no_workspace() {
    let names = vec!["agent-1".to_string()];
    assert_eq!(locate_workspace(&names, &"agent-1".to_string()), Ok(0));
    match locate_workspace(&names, &"agent-2".to_string()) {
        Err(GitError::NoWorkspace { agent_id }) => assert_eq!(agent_id, "agent-2"),
        other => panic!("expected NoWorkspace, got {:?}", other),
    }
}

#[test]
fn env_lookup_first_pair_wins() {
    let env = vec![
        ("GIT_AUTHOR_NAME".to_string(), "First".to_string()),
        ("GIT_AUTHOR_NAME".to_string(), "Second".to_string()),
        ("OTHER".to_string(), "x".to_string()),
    ];
    assert_eq!(env_lookup(&env, "GIT_AUTHOR_NAME"), Some("First".to_string()));
    assert_eq!(env_lookup(&env, "GIT_AUTHOR_EMAIL"), None);
}

#[test]
fn resolve_author_precedence() {
    let requested = Some(Author { name: "Req".to_string(), email: "req@x".to_string() });
    let env = vec![
        ("GIT_AUTHOR_NAME".to_string(), "Env".to_string()),
        ("GIT_AUTHOR_EMAIL".to_string(), "env@x".to_string()),
    ];
    let fallback = Some(Author { name: "Cfg".to_string(), email: "cfg@x".to_string() });

    let a = resolve_author(&requested, &env, &fallback).unwrap();
    assert_eq!(a.name, "Req");
    assert_eq!(a.email, "req@x");

    let b = resolve_author(&None, &env, &fallback).unwrap();
    assert_eq!(b.name, "Env");
    assert_eq!(b.email, "env@x");

    let partial_env = vec![("GIT_AUTHOR_NAME".to_string(), "Env".to_string())];
    let c = resolve_author(&None, &partial_env, &fallback).unwrap();
    assert_eq!(c.name, "Cfg");
    assert_eq!(c.email, "cfg@x");

    assert_eq!(resolve_author(&None, &Vec::new(), &None), None);
}

#[test]
fn build_message_trailers() {
    let msg = "update x".to_string();
    let co = Author { name: "Pair Bot".to_string(), email: "pair@gastown".to_string() };
    let me = Author { name: "Polecat".to_string(), email: "polecat@gastown".to_string() };

    assert_eq!(build_message(&msg, &None, None), "update x");
    assert_eq!(
        build_message(&msg, &Some(co.clone()), None),
        "update x\n\nCo-authored-by: Pair Bot <pair@gastown>"
    );
    assert_eq!(
        build_message(&msg, &None, Some(&me)),
        "update x\n\nSigned-off-by: Polecat <polecat@gastown>"
    );
    assert_eq!(
        build_message(&msg, &Some(co), Some(&me)),
        "update x\n\nCo-authored-by: Pair Bot <pair@gastown>\n\nSigned-off-by: Polecat <polecat@gastown>"
    );
}

#[test]
fn amend_precheck_gate() {
    let head = Some(CommitId { hex: "a".repeat(40) });
    assert!(amend_precheck(false, &None).is_ok());
    assert!(amend_precheck(false, &head).is_ok());
    assert!(amend_precheck(true, &head).is_ok());
    assert_eq!(amend_precheck(true, &None), Err(GitError::NothingToAmend));
}

#[test]
fn failure_mappings() {
    let target = "agent-1".to_string();
    match mutation_failure("worktree add", &target, GitErrorKind::Exists, String::new()) {
        GitError::AlreadyExists { name } => assert_eq!(name, "agent-1"),
        other => panic!("expected AlreadyExists, got {:?}", other),
    }
    match mutation_failure("worktree add", &target, GitErrorKind::Locked, String::new()) {
        GitError::ResourceBusy { operation, target } => {
            assert_eq!(operation, "worktree add");
            assert_eq!(target, "agent-1");
        }
        other => panic!("expected ResourceBusy, got {:?}", other),
    }
    match mutation_failure("worktree add", &target, GitErrorKind::Other, "boom".to_string()) {
        GitError::CommandFailed { stderr, .. } => assert_eq!(stderr, "boom"),
        other => panic!("expected CommandFailed, got {:?}", other),
    }
    match lookup_failure("worktree prune", &target, GitErrorKind::NotFound, String::new()) {
        GitError::NotFound { name } => assert_eq!(name, "agent-1"),
        other => panic!("expected NotFound, got {:?}", other),
    }
}

#[test]
fn git_error_messages() {
    let e = GitError::OpenFailed { path: "/rig".to_string(), detail: "no repo".to_string() };
    assert_eq!(e.message(), "failed to open repository at /rig: no repo");
    let e = GitError::LaunchFailed { command: "git".to_string(), detail: "missing".to_string() };
    assert_eq!(e.message(), "failed to launch git: missing");
    let e = GitError::Timeout { command: "git".to_string() };
    assert_eq!(e.message(), "command timed out: git");
    let e = GitError::CommandFailed {
        operation: "commit".to_string(),
        target: "/wt".to_string(),
        stderr: "bad".to_string(),
    };
    assert_eq!(e.message(), "commit on /wt failed: bad");
    let e = GitError::ResourceBusy { operation: "status".to_string(), target: "/wt".to_string() };
    assert_eq!(e.message(), "status on /wt: repository lock is busy");
    let e = GitError::AlreadyExists { name: "a".to_string() };
    assert_eq!(e.message(), "worktree already exists: a");
    let e = GitError::NotFound { name: "a".to_string() };
    assert_eq!(e.message(), "worktree not found: a");
    assert_eq!(GitError::NothingToAmend.message(), "nothing to amend: HEAD has no commit");
    let e = GitError::NoWorkspace { agent_id: "a1".to_string() };
    assert_eq!(e.message(), "no workspace for agent a1");
}

#[test]
fn dashboard_error_messages() {
    assert_eq!(DashboardError::NotAvailable.message(), "Dashboard not available");
    assert_eq!(
        DashboardError::FetchFailed("down".to_string()).message(),
        "Fetch failed: down"
    );
    assert_eq!(
        DashboardError::ParseError("bad".to_string()).message(),
        "Parse error: bad"
    );
    assert_eq!(
        DashboardFormatter::format_error(&DashboardError::NotAvailable),
        "Dashboard unavailable\n\nRun 'gt up' to start Gastown"
    );
}

#[test]
fn test_error_display_fetch_failed() {
    let error = DashboardError::FetchFailed("Connection timeout".into());
    let formatted = DashboardFormatter::format_error(&error);

    assert!(formatted.contains("Failed to load dashboard"));
    assert!(formatted.contains("Connection timeout"));
}

#[test]
fn test_error_display_parse_error() {
    let error = DashboardError::ParseError("Invalid JSON".into());
    let formatted = DashboardFormatter::format_error(&error);

    assert!(formatted.contains("Failed to parse dashboard data"));
    assert!(formatted.contains("Invalid JSON"));
}

#[test]
fn connection_status_from_availability() {
    assert_eq!(connection_status_for(true), ConnectionStatus::Connected);
    assert_eq!(connection_status_for(false), ConnectionStatus::Disconnected);
}
