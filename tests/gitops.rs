use repo_dash::gitops::{
    ahead_behind_target, branch_info_from, branch_remote_target, choose_pull_remote,
    choose_push_remote, clean_git_message, commit_branches, first_nonblank_line, format_git_error,
    lines_contain, main_branch_name, parse_ahead_behind, parse_branch_list, parse_log_line,
    upstream_remote, validate_branch_name, validate_commit_message, LogEntry,
};

fn strings(items: &[&str]) -> Vec<String> {
    items.iter().map(|s| s.to_string()).collect()
}

#[test]
fn cleans_tool_messages() {
    assert_eq!(clean_git_message("fatal: not a git repository\nhint: run init"), "not a git repository");
    assert_eq!(clean_git_message("  error: fatal: x  "), "fatal: x");
    assert_eq!(clean_git_message("fatal: fatal: twice"), "twice");
    assert_eq!(clean_git_message("error: bad\r\nmore"), "bad");
    assert_eq!(clean_git_message(""), "");
}

#[test]
fn formats_tool_errors() {
    assert_eq!(format_git_error("git push", "  \n", "exit status: 1"), "git push exited with status: exit status: 1");
    assert_eq!(format_git_error("git push", "error: failed to push\n", "exit status: 1"), "failed to push");
}

#[test]
fn picks_remotes() {
    assert_eq!(upstream_remote("origin/main"), Some("origin".to_string()));
    assert_eq!(upstream_remote("main"), None);
    assert_eq!(
        choose_pull_remote(Some("up/feature"), Some("cfg".into()), Some("first".into())),
        Some("up".to_string())
    );
    assert_eq!(choose_pull_remote(Some("plain"), Some("cfg".into()), None), Some("cfg".to_string()));
    assert_eq!(choose_pull_remote(None, None, Some("first".into())), Some("first".to_string()));
    assert_eq!(choose_pull_remote(None, None, None), None);
    assert_eq!(choose_push_remote(Some("up/feature"), None, None), Some("up/feature".to_string()));
    assert_eq!(choose_push_remote(None, Some("cfg".into()), None), Some("cfg".to_string()));
}

#[test]
fn names_tracking_targets() {
    assert_eq!(branch_remote_target(Some("refs/heads/dev"), "origin", "local"), "origin/dev");
    assert_eq!(branch_remote_target(None, "origin", "local"), "origin/local");
    assert_eq!(main_branch_name(true, true), Some("main".to_string()));
    assert_eq!(main_branch_name(false, true), Some("master".to_string()));
    assert_eq!(main_branch_name(false, false), None);
    assert_eq!(ahead_behind_target(Some("origin/x".into()), "x", Some("main")), Some("origin/x".to_string()));
    assert_eq!(ahead_behind_target(None, "x", Some("main")), Some("main".to_string()));
    assert_eq!(ahead_behind_target(None, "main", Some("main")), None);
}

#[test]
fn reads_log_lines() {
    assert_eq!(
        parse_log_line("abcdef0123\tabcdef0\t fix: a\tb "),
        Some(LogEntry { full_id: "abcdef0123".into(), short_id: "abcdef0".into(), summary: "fix: a\tb".into() })
    );
    assert_eq!(
        parse_log_line("abc\tab"),
        Some(LogEntry { full_id: "abc".into(), short_id: "ab".into(), summary: String::new() })
    );
    assert_eq!(parse_log_line("abc"), None);
    assert_eq!(parse_log_line(" \tab\tx"), None);
}

#[test]
fn labels_commits_with_branches() {
    assert_eq!(commit_branches(Some("main"), true, strings(&["dev"])), strings(&["main"]));
    assert_eq!(commit_branches(Some("main"), false, strings(&["dev", "main", "x"])), strings(&["dev", "x"]));
    assert_eq!(commit_branches(None, false, strings(&["dev", "main"])), strings(&["dev", "main"]));
}

#[test]
fn reads_ahead_behind_counts() {
    assert_eq!(parse_ahead_behind("3\t5\n"), Some((3, 5)));
    assert_eq!(parse_ahead_behind("  +7 "), Some((7, 0)));
    assert_eq!(parse_ahead_behind(""), None);
    assert_eq!(parse_ahead_behind("x 1"), None);
    assert_eq!(parse_ahead_behind("1 y"), None);
    assert_eq!(parse_ahead_behind("99999999999999999999999 1"), None);
    assert_eq!(parse_ahead_behind("18446744073709551615 0"), Some((usize::MAX, 0)));
}

#[test]
fn reads_branch_lists_sorted_once() {
    let lines = strings(&["* main", "  feature", "", "feature", "* * odd", "alpha "]);
    assert_eq!(parse_branch_list(&lines), strings(&["alpha", "feature", "main", "odd"]));
    assert!(parse_branch_list(&Vec::new()).is_empty());
}

#[test]
fn builds_branch_listing() {
    let info = branch_info_from(Ok((strings(&["zeta", "main", "alpha"]), Some("main".into()))));
    let names: Vec<&str> = info.branches.iter().map(|b| b.name.as_str()).collect();
    assert_eq!(names, vec!["alpha", "main", "zeta"]);
    assert_eq!(info.current, Some("main".to_string()));
    assert!(info.branches.iter().all(|b| b.ahead.is_none() && !b.is_remote));
    let failed = branch_info_from(Err("Not a git repository".into()));
    assert!(failed.branches.is_empty());
    assert_eq!(failed.status, Some("Not a git repository".to_string()));
}

#[test]
fn finds_lines() {
    let lines = strings(&["  abc  ", "def"]);
    assert!(lines_contain(&lines, "abc"));
    assert!(!lines_contain(&lines, "ab"));
    assert_eq!(first_nonblank_line(&strings(&["", "  ", " origin ", "up"])), Some("origin".to_string()));
    assert_eq!(first_nonblank_line(&strings(&[" "])), None);
}

#[test]
fn validates_names_and_messages() {
    assert_eq!(validate_commit_message("  "), Err("Commit message cannot be empty".to_string()));
    assert_eq!(validate_commit_message("ok"), Ok(()));
    assert_eq!(validate_branch_name("\t"), Err("Branch name cannot be empty".to_string()));
    assert_eq!(validate_branch_name("x"), Ok(()));
}
