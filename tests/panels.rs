use repo_dash::branches::{format_indicator, panel, BranchList};
use repo_dash::commits::{CommitList, CommitsState};
use repo_dash::details::DetailsView;
use repo_dash::format::{format_branch_label, pad_branch, truncate_with_ellipsis};
use repo_dash::git::{BranchInfo, BranchSummary, ChangeType, Commit, FileChange, RepoStatus};
use repo_dash::popup;
use repo_dash::regions::{PanelColor, Region};
use repo_dash::status::{keys_hint_line, summarize_change_counts, summary_text, StatusBox};

fn change(path: &str, change: ChangeType) -> FileChange {
    FileChange { path: path.into(), change, staged: false }
}

#[test]
fn truncates_and_adds_ellipsis() {
    assert_eq!(
        truncate_with_ellipsis("feature/some-long-name", 10),
        "feature/s…"
    );
    assert_eq!(truncate_with_ellipsis("short", 10), "short");
    assert_eq!(truncate_with_ellipsis("long", 1), "…");
}

#[test]
fn truncation_to_zero_is_empty() {
    assert_eq!(truncate_with_ellipsis("abc", 0), "");
    assert_eq!(truncate_with_ellipsis("añb", 3), "añb");
}

#[test]
fn formats_indicator_for_ahead_behind() {
    let mut branch = BranchSummary {
        name: "feature".into(),
        ahead: Some(2),
        behind: Some(1),
        is_remote: false,
        remote_ref: None,
    };
    assert_eq!(format_indicator(&branch), "↑2 ↓1");

    branch.ahead = Some(0);
    branch.behind = Some(0);
    assert_eq!(format_indicator(&branch), "↑0 ↓0");

    branch.ahead = None;
    branch.behind = None;
    assert_eq!(format_indicator(&branch), "↑0 ↓0");
}

#[test]
fn indicator_defaults_for_remote_branch() {
    let branch = BranchSummary {
        name: "origin/feature".into(),
        ahead: Some(1),
        behind: Some(1),
        is_remote: true,
        remote_ref: Some("origin/feature".into()),
    };
    assert_eq!(format_indicator(&branch), "↑1 ↓1");
}

#[test]
fn indicator_prints_large_counts() {
    let branch = BranchSummary {
        name: "x".into(),
        ahead: Some(1204),
        behind: Some(90),
        is_remote: false,
        remote_ref: None,
    };
    assert_eq!(format_indicator(&branch), "↑1204 ↓90");
}

#[test]
fn format_branch_label_handles_various_cases() {
    assert_eq!(format_branch_label(&[]), "-");
    assert_eq!(format_branch_label(&["main".into()]), "main");
    assert_eq!(
        format_branch_label(&["feature".into(), "bugfix".into()]),
        "feature,bugfix"
    );
}

#[test]
fn pad_branch_truncates_and_pads() {
    assert_eq!(pad_branch("short", 10), "short     ");
    assert_eq!(pad_branch("averylongbranch", 8), "averylo…");
}

#[test]
fn summarizes_counts_and_order() {
    let changes = vec![
        change("a", ChangeType::Added),
        change("b", ChangeType::Added),
        change("c", ChangeType::Renamed),
        change("d", ChangeType::Unknown),
    ];

    let counts = summarize_change_counts(&changes);

    assert_eq!(
        counts,
        vec![
            (ChangeType::Added, 2),
            (ChangeType::Modified, 0),
            (ChangeType::Deleted, 0),
            (ChangeType::Renamed, 1),
            (ChangeType::Untracked, 0),
            (ChangeType::TypeChange, 0),
            (ChangeType::Unmerged, 0),
            (ChangeType::Copied, 0),
            (ChangeType::Unknown, 1),
        ]
    );
}

#[test]
fn builds_summary_text() {
    let status = RepoStatus {
        changes: vec![
            FileChange {
                path: "a".into(),
                change: ChangeType::Added,
                staged: false,
            },
            FileChange {
                path: "b".into(),
                change: ChangeType::Untracked,
                staged: false,
            },
        ],
        ..RepoStatus::default()
    };

    assert_eq!(
        summary_text(&status),
        "2 changes (1 added, 1 untracked)".to_string()
    );
}

#[test]
fn summary_of_a_clean_tree() {
    assert_eq!(summary_text(&RepoStatus::default()), "0 changes");
    let status = RepoStatus {
        changes: vec![
            change("a", ChangeType::Unknown),
            change("b", ChangeType::Copied),
            change("c", ChangeType::Modified),
        ],
        ..RepoStatus::default()
    };
    assert_eq!(summary_text(&status), "3 changes (1 modified, 1 copied, 1 other)");
}

#[test]
fn shows_branch_hints_without_footer_keys() {
    let content = keys_hint_line(Region::Branches);
    assert!(content.contains("[q] quit"));
    assert!(content.contains("[l] local changes"));
    assert!(content.contains("[↑↓] move"));
    assert!(content.contains("[Enter] checkout"));
    assert!(content.contains("[u] update"));
    assert!(content.contains("[p] push"));
    assert!(content.contains("[a] add"));
    assert!(content.contains("[x] delete"));
}

#[test]
fn shows_simple_hints_for_commits() {
    let content = keys_hint_line(Region::Commits);
    assert!(content.contains("[q] quit"));
    assert!(content.contains("[↑↓] move"));
}

#[test]
fn hint_lines_are_joined_exactly() {
    assert_eq!(
        keys_hint_line(Region::Commits),
        "[q] quit  [l] local changes  │  [↑↓] move"
    );
    assert_eq!(keys_hint_line(Region::Details), "[q] quit  [l] local changes");
    assert_eq!(
        popup::keys_hint_line(Region::CommitMessage),
        "Local changes  ·  [q] close  |  [Enter] commit  [Esc] stop"
    );
    assert_eq!(popup::keys_hint_line(Region::ChangeViewer), "Local changes  ·  [q] close");
}

#[test]
fn regions_have_labels_and_colours() {
    assert_eq!(Region::Commits.as_str(), "[c] Commits");
    assert_eq!(Region::CommitMessage.as_str(), "[m] Commit message");
    assert_eq!(Region::Changes.instructions(), vec!["[↑↓] move", "[Enter] stage/unstage", "[x] discard"]);
    assert!(Region::Stashes.instructions().is_empty());
    assert_eq!(Region::Branches.color(true), PanelColor::Green);
    assert_eq!(Region::Branches.color(false), PanelColor::Yellow);
}

#[test]
fn status_box_title_and_badge() {
    let mut status = RepoStatus::default();
    assert_eq!(StatusBox::new(&status, Region::Commits).title(), "Workspace");
    assert_eq!(StatusBox::new(&status, Region::Commits).badge(), "✓ clean");
    status.repo_name = Some("dash".to_string());
    status.changes.push(change("a", ChangeType::Added));
    assert_eq!(StatusBox::new(&status, Region::Commits).title(), "Workspace • dash");
    assert_eq!(StatusBox::new(&status, Region::Commits).badge(), "● dirty");
}

#[test]
fn branch_rows_mark_hover_current_and_selection() {
    let info = BranchInfo {
        branches: vec![
            BranchSummary { name: "main".into(), ahead: Some(1), behind: None, is_remote: false, remote_ref: None },
            BranchSummary { name: "feature/very-long".into(), ahead: None, behind: Some(3), is_remote: false, remote_ref: None },
        ],
        current: Some("main".into()),
        status: None,
        hovered: Some(1),
        selected: Some("feature/very-long".into()),
    };
    let list = BranchList::new(&info);
    let first = list.row(0, 20);
    assert_eq!(first.text, format!(" * main{}↑1 ↓0", " ".repeat(8)));
    assert!(first.is_current && !first.is_hovered && !first.is_selected);
    let second = list.row(1, 20);
    assert_eq!(second.text, ">  feature/ve… ↑0 ↓3");
    assert!(second.is_hovered && second.is_selected && !second.is_current);
    assert_eq!(panel(true, &info).title(1), "[b] Branches (2/2)");
    assert_eq!(panel(true, &info).title(5), "[b] Branches");
}

#[test]
fn commit_rows_and_details() {
    let state = CommitsState {
        commits: vec![Commit { id: "a1".into(), summary: "first".into(), branches: vec!["main".into(), "dev".into()] }],
        status: None,
        hovered: Some(0),
    };
    let row = CommitList::new(&state).row(0);
    assert_eq!(row.label, format!("{:<14}", "main,dev"));
    assert_eq!(row.id, "a1");
    assert!(row.is_hovered);
    assert_eq!(DetailsView::new(state.commits.first()).message(), "Details for \"first\" are not implemented yet");
    assert_eq!(DetailsView::new(None).message(), "Select a commit to view details");
}

#[test]
fn change_viewer_names_the_selected_file() {
    let status = RepoStatus { changes: vec![change("dir/file.rs", ChangeType::Modified)], ..RepoStatus::default() };
    assert_eq!(
        popup::change_viewer_text(&status, Some(0)),
        "Change view for dir/file.rs is not yet implemented"
    );
    assert_eq!(popup::change_viewer_text(&status, Some(3)), "Select a change to view");
    assert_eq!(popup::change_line_label(&status.changes[0]), "unstaged");
}
