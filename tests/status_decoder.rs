use repo_dash::git::{
    change_type_from_code, change_type_from_flag, decode_status_report, is_staged,
    parse_status_line, repo_status_from_report, ChangeType, FileChange, RepoStatus,
};

fn change(path: &str, change: ChangeType, staged: bool) -> FileChange {
    FileChange { path: path.to_string(), change, staged }
}

#[test]
fn parses_porcelain_lines_into_changes() {
    let modified = parse_status_line(" M src/main.rs");
    assert_eq!(
        modified,
        vec![FileChange {
            path: "src/main.rs".to_string(),
            change: ChangeType::Modified,
            staged: false,
        }]
    );

    let renamed = parse_status_line("R  old.rs -> new.rs");
    assert_eq!(
        renamed,
        vec![FileChange {
            path: "new.rs".to_string(),
            change: ChangeType::Renamed,
            staged: true,
        }]
    );

    let untracked = parse_status_line("?? notes.txt");
    assert_eq!(
        untracked,
        vec![FileChange {
            path: "notes.txt".to_string(),
            change: ChangeType::Untracked,
            staged: false,
        }]
    );

    let dual = parse_status_line("MM src/lib.rs");
    assert_eq!(
        dual,
        vec![
            FileChange {
                path: "src/lib.rs".to_string(),
                change: ChangeType::Modified,
                staged: true,
            },
            FileChange {
                path: "src/lib.rs".to_string(),
                change: ChangeType::Modified,
                staged: false,
            }
        ]
    );
}

#[test]
fn flag_mapping_covers_every_letter() {
    assert_eq!(change_type_from_flag('A'), ChangeType::Added);
    assert_eq!(change_type_from_flag('M'), ChangeType::Modified);
    assert_eq!(change_type_from_flag('D'), ChangeType::Deleted);
    assert_eq!(change_type_from_flag('R'), ChangeType::Renamed);
    assert_eq!(change_type_from_flag('C'), ChangeType::Copied);
    assert_eq!(change_type_from_flag('T'), ChangeType::TypeChange);
    assert_eq!(change_type_from_flag('U'), ChangeType::Unmerged);
    assert_eq!(change_type_from_flag('?'), ChangeType::Untracked);
    assert_eq!(change_type_from_flag('X'), ChangeType::Unknown);
    assert_eq!(change_type_from_flag('!'), ChangeType::Unknown);
}

#[test]
fn codes_decide_stage_and_type() {
    assert!(is_staged("M "));
    assert!(is_staged("AM"));
    assert!(!is_staged(" M"));
    assert!(!is_staged("??"));
    assert_eq!(change_type_from_code("??"), ChangeType::Untracked);
    assert_eq!(change_type_from_code(" D"), ChangeType::Deleted);
    assert_eq!(change_type_from_code("AM"), ChangeType::Added);
    assert_eq!(change_type_from_code("  "), ChangeType::Unknown);
}

#[test]
fn every_code_pair_yields_one_record_per_flag() {
    let flags = [' ', 'A', 'M', 'D', 'R', 'C', 'T', 'U', '?', 'X'];
    for &x in flags.iter() {
        for &y in flags.iter() {
            let line = format!("{x}{y} dir/file.txt");
            let records = parse_status_line(&line);
            if x == '?' && y == '?' {
                assert_eq!(records, vec![change("dir/file.txt", ChangeType::Untracked, false)]);
                continue;
            }
            let mut expected = Vec::new();
            if x != ' ' {
                expected.push(change("dir/file.txt", change_type_from_flag(x), true));
            }
            if y != ' ' {
                expected.push(change("dir/file.txt", change_type_from_flag(y), false));
            }
            assert_eq!(records, expected, "line {line:?}");
        }
    }
}

#[test]
fn malformed_lines_yield_nothing() {
    assert!(parse_status_line("").is_empty());
    assert!(parse_status_line("M").is_empty());
    assert!(parse_status_line(" M").is_empty());
    assert!(parse_status_line(" M ").is_empty());
    assert!(parse_status_line(" M    ").is_empty());
}

#[test]
fn rename_paths_are_trimmed() {
    assert_eq!(
        parse_status_line("R   a.txt  ->  b.txt  "),
        vec![change("b.txt", ChangeType::Renamed, true)]
    );
    assert_eq!(
        parse_status_line("RM dir/ä.rs -> dir/ö.rs"),
        vec![
            change("dir/ö.rs", ChangeType::Renamed, true),
            change("dir/ö.rs", ChangeType::Modified, false)
        ]
    );
}

#[test]
fn report_is_sorted_by_path_keeping_both_halves_together() {
    let lines = vec![
        "?? root.txt".to_string(),
        "MM dir/b.txt".to_string(),
        "A  dir/a.txt".to_string(),
        "M".to_string(),
        " D dir/a.txt".to_string(),
    ];
    let changes = decode_status_report(&lines);
    assert_eq!(
        changes,
        vec![
            change("dir/a.txt", ChangeType::Added, true),
            change("dir/a.txt", ChangeType::Deleted, false),
            change("dir/b.txt", ChangeType::Modified, true),
            change("dir/b.txt", ChangeType::Modified, false),
            change("root.txt", ChangeType::Untracked, false),
        ]
    );
}

#[test]
fn status_from_report_keeps_error_and_name() {
    let ok = repo_status_from_report(Ok(vec![" M a.rs".to_string()]), Some("repo".to_string()));
    assert_eq!(ok.changes, vec![change("a.rs", ChangeType::Modified, false)]);
    assert_eq!(ok.error, None);
    assert_eq!(ok.repo_name, Some("repo".to_string()));
    assert_eq!(ok.total_changes(), 1);
    assert!(!ok.is_clean());

    let err = repo_status_from_report(Err("not a repository".to_string()), None);
    assert!(err.changes.is_empty());
    assert_eq!(err.error, Some("not a repository".to_string()));
    assert!(!err.is_clean());

    assert!(RepoStatus::default().is_clean());
}
