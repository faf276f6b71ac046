use repo_dash::controller::{App, Snapshot, REFRESH_INTERVAL_MS};
use repo_dash::dispatch::Action;
use repo_dash::git::{repo_status_from_report, BranchInfo, BranchSummary, ChangeType, Commit};
use repo_dash::keys::{KeyCode, KeyEvent, KeyEventKind};
use repo_dash::regions::Region;

fn branch(name: &str) -> BranchSummary {
    BranchSummary { name: name.to_string(), ahead: None, behind: None, is_remote: false, remote_ref: None }
}

fn snapshot(branches: &[&str], current: Option<&str>, lines: &[&str]) -> Snapshot {
    Snapshot {
        branches: BranchInfo {
            branches: branches.iter().map(|b| branch(b)).collect(),
            current: current.map(str::to_string),
            status: None,
            hovered: None,
            selected: None,
        },
        commits: Ok(vec![
            Commit { id: "c3d4".into(), summary: "second".into(), branches: vec!["main".into()] },
            Commit { id: "a1b2".into(), summary: "first".into(), branches: vec![] },
        ]),
        status: repo_status_from_report(
            Ok(lines.iter().map(|l| l.to_string()).collect()),
            Some("repo".to_string()),
        ),
    }
}

fn press(app: &mut App, code: KeyCode, now: u64) -> Action {
    app.handle_key_event(KeyEvent::new(code), now)
}

fn typed(app: &mut App, text: &str, now: u64) {
    for c in text.chars() {
        assert_eq!(press(app, KeyCode::Char(c), now), Action::Nothing);
    }
}

fn paths(app: &App) -> Vec<(String, bool)> {
    app.repo_status.changes.iter().map(|c| (c.path.clone(), c.staged)).collect()
}

#[test]
fn staging_moves_a_file_to_the_staged_half_in_place() {
    let mut app = App::new(snapshot(&["main"], Some("main"), &[" M a.txt", " M b.txt", "?? c.txt"]), 0);
    press(&mut app, KeyCode::Char('l'), 0);
    assert!(app.show_changes_popup);
    assert_eq!(app.popup_region, Region::Changes);
    press(&mut app, KeyCode::Down, 0);
    assert_eq!(app.selected_change, Some(1));
    let action = press(&mut app, KeyCode::Enter, 0);
    assert_eq!(action, Action::Stage("b.txt".to_string()));
    let follow = app.complete(
        action,
        Ok(snapshot(&["main"], Some("main"), &[" M a.txt", "M  b.txt", "?? c.txt"])),
        5,
    );
    assert_eq!(follow, Action::Nothing);
    assert_eq!(
        paths(&app),
        vec![("a.txt".to_string(), false), ("b.txt".to_string(), true), ("c.txt".to_string(), false)]
    );
    assert_eq!(app.selected_change, Some(1));
    assert_eq!(app.repo_status.changes[1].change, ChangeType::Modified);
}

#[test]
fn unstaging_a_staged_change_asks_to_unstage() {
    let mut app = App::new(snapshot(&["main"], Some("main"), &["A  new.rs"]), 0);
    press(&mut app, KeyCode::Char('l'), 0);
    assert_eq!(press(&mut app, KeyCode::Enter, 0), Action::Unstage("new.rs".to_string()));
}

#[test]
fn discarding_an_untracked_file_removes_it_and_clamps_selection() {
    let mut app = App::new(snapshot(&["main"], Some("main"), &[" M a.txt", " M b.txt", "?? c.txt"]), 0);
    press(&mut app, KeyCode::Char('l'), 0);
    press(&mut app, KeyCode::Down, 0);
    press(&mut app, KeyCode::Down, 0);
    press(&mut app, KeyCode::Down, 0);
    assert_eq!(app.selected_change, Some(2));
    let action = press(&mut app, KeyCode::Char('x'), 0);
    assert_eq!(action, Action::Discard("c.txt".to_string()));
    app.complete(action, Ok(snapshot(&["main"], Some("main"), &[" M a.txt", " M b.txt"])), 0);
    assert_eq!(paths(&app), vec![("a.txt".to_string(), false), ("b.txt".to_string(), false)]);
    assert_eq!(app.selected_change, Some(1));
}

#[test]
fn deleting_the_current_branch_is_refused_with_a_notice() {
    let mut app = App::new(snapshot(&["feature", "main"], Some("main"), &[]), 0);
    press(&mut app, KeyCode::Char('b'), 0);
    assert_eq!(app.selected_region, Region::Branches);
    assert_eq!(app.selected_branch.hovered, Some(1));
    let action = press(&mut app, KeyCode::Char('x'), 7);
    assert_eq!(action, Action::Nothing);
    let names: Vec<&str> = app.selected_branch.branches.iter().map(|b| b.name.as_str()).collect();
    assert_eq!(names, vec!["feature", "main"]);
    let notice = app.notification.as_ref().expect("a notice");
    assert!(notice.message.contains("delete"));
    assert_eq!(notice.expires_at, 10_007);
}

#[test]
fn a_failed_deletion_leaves_the_branches_alone() {
    let mut app = App::new(snapshot(&["feature", "main"], Some("main"), &[]), 0);
    press(&mut app, KeyCode::Char('b'), 0);
    press(&mut app, KeyCode::Up, 0);
    assert_eq!(app.selected_branch.hovered, Some(0));
    let action = press(&mut app, KeyCode::Delete, 0);
    assert_eq!(action, Action::DeleteBranch("feature".to_string()));
    let follow = app.complete(action, Err("branch 'feature' is not fully merged".to_string()), 3);
    assert_eq!(follow, Action::Nothing);
    assert_eq!(app.selected_branch.branches.len(), 2);
    assert_eq!(
        app.notification.as_ref().map(|n| n.message.as_str()),
        Some("Delete failed: branch 'feature' is not fully merged")
    );
}

#[test]
fn successful_deletion_refreshes_and_reports() {
    let mut app = App::new(snapshot(&["feature", "main"], Some("main"), &[]), 0);
    press(&mut app, KeyCode::Char('b'), 0);
    press(&mut app, KeyCode::Up, 0);
    let action = press(&mut app, KeyCode::Char('x'), 0);
    app.complete(action, Ok(snapshot(&["main"], Some("main"), &[])), 0);
    assert_eq!(app.selected_branch.branches.len(), 1);
    assert_eq!(app.selected_branch.hovered, Some(0));
    assert_eq!(app.notification.as_ref().map(|n| n.message.as_str()), Some("Deleted feature"));
}

#[test]
fn remote_branches_cannot_be_deleted_and_check_out_by_reference() {
    let mut snap = snapshot(&["main"], Some("main"), &[]);
    snap.branches.branches.push(BranchSummary {
        name: "origin/topic".into(),
        ahead: None,
        behind: None,
        is_remote: true,
        remote_ref: Some("origin/topic".into()),
    });
    let mut app = App::new(snap, 0);
    press(&mut app, KeyCode::Char('b'), 0);
    press(&mut app, KeyCode::Down, 0);
    assert_eq!(press(&mut app, KeyCode::Char('x'), 0), Action::Nothing);
    assert_eq!(
        app.notification.as_ref().map(|n| n.message.as_str()),
        Some("Cannot delete remote branches")
    );
    let action = press(&mut app, KeyCode::Enter, 0);
    assert_eq!(action, Action::CheckoutRemote("origin/topic".to_string()));
    app.complete(action, Ok(snapshot(&["main", "topic"], Some("topic"), &[])), 0);
    assert_eq!(app.selected_branch.selected, Some("topic".to_string()));
    assert_eq!(app.notification.as_ref().map(|n| n.message.as_str()), Some("Switched to topic"));
}

#[test]
fn checkout_failure_is_reported() {
    let mut app = App::new(snapshot(&["feature", "main"], Some("main"), &[]), 0);
    press(&mut app, KeyCode::Char('b'), 0);
    press(&mut app, KeyCode::Up, 0);
    let action = press(&mut app, KeyCode::Enter, 0);
    assert_eq!(action, Action::Checkout("feature".to_string()));
    app.complete(action, Err("local changes".to_string()), 0);
    assert_eq!(
        app.notification.as_ref().map(|n| n.message.as_str()),
        Some("Checkout failed: local changes")
    );
    assert_eq!(app.selected_branch.current, Some("main".to_string()));
}

#[test]
fn update_fetches_then_pulls_the_current_branch() {
    let mut app = App::new(snapshot(&["main"], Some("main"), &[]), 0);
    press(&mut app, KeyCode::Char('b'), 0);
    let action = press(&mut app, KeyCode::Char('u'), 0);
    assert_eq!(action, Action::FetchRemotes);
    let follow = app.complete(action, Ok(snapshot(&["main"], Some("main"), &[])), 0);
    assert_eq!(follow, Action::PullCurrent("main".to_string()));
    app.complete(follow, Err("conflict".to_string()), 0);
    assert_eq!(
        app.notification.as_ref().map(|n| n.message.as_str()),
        Some("Update main failed: conflict")
    );
    app.complete(Action::PullCurrent("main".to_string()), Ok(snapshot(&["main"], Some("main"), &[])), 0);
    assert_eq!(app.notification.as_ref().map(|n| n.message.as_str()), Some("Updated main"));
}

#[test]
fn push_needs_a_current_branch() {
    let mut app = App::new(snapshot(&["main"], None, &[]), 0);
    press(&mut app, KeyCode::Char('b'), 0);
    assert_eq!(press(&mut app, KeyCode::Char('p'), 0), Action::Nothing);
    assert_eq!(
        app.notification.as_ref().map(|n| n.message.as_str()),
        Some("No current branch to push")
    );
    let mut app = App::new(snapshot(&["main"], Some("main"), &[]), 0);
    press(&mut app, KeyCode::Char('b'), 0);
    let action = press(&mut app, KeyCode::Char('p'), 0);
    assert_eq!(action, Action::PushCurrent("main".to_string()));
    app.complete(action, Err("rejected".to_string()), 0);
    assert_eq!(app.notification.as_ref().map(|n| n.message.as_str()), Some("Push main failed: rejected"));
}

#[test]
fn creating_a_branch_through_the_overlay() {
    let mut app = App::new(snapshot(&["main"], Some("main"), &[]), 0);
    press(&mut app, KeyCode::Char('b'), 0);
    press(&mut app, KeyCode::Char('a'), 0);
    assert!(app.branch_input.is_some());
    assert_eq!(press(&mut app, KeyCode::Enter, 0), Action::Nothing);
    assert_eq!(
        app.branch_input.as_ref().and_then(|b| b.error.clone()),
        Some("Branch name cannot be empty".to_string())
    );
    typed(&mut app, "new feature", 0);
    assert_eq!(app.branch_input.as_ref().map(|b| b.value.as_str()), Some("new-feature"));
    assert_eq!(app.branch_input.as_ref().and_then(|b| b.error.clone()), None);
    assert_eq!(app.selected_region, Region::Branches);
    let action = press(&mut app, KeyCode::Enter, 0);
    assert_eq!(action, Action::CreateBranch("new-feature".to_string()));
    app.complete(action, Err("already exists".to_string()), 0);
    assert_eq!(app.notification.as_ref().map(|n| n.message.as_str()), Some("already exists"));
    assert_eq!(app.branch_input.as_ref().map(|b| b.value.as_str()), Some("new-feature"));
    let action = press(&mut app, KeyCode::Enter, 0);
    app.complete(action, Ok(snapshot(&["main", "new-feature"], Some("new-feature"), &[])), 0);
    assert!(app.branch_input.is_none());
    assert_eq!(app.selected_branch.selected, Some("new-feature".to_string()));
}

#[test]
fn any_keystroke_clears_the_inline_error() {
    let mut app = App::new(snapshot(&["main"], Some("main"), &[]), 0);
    press(&mut app, KeyCode::Char('b'), 0);
    press(&mut app, KeyCode::Char('a'), 0);
    press(&mut app, KeyCode::Enter, 0);
    assert!(app.branch_input.as_ref().and_then(|b| b.error.clone()).is_some());
    press(&mut app, KeyCode::Left, 0);
    assert_eq!(app.branch_input.as_ref().and_then(|b| b.error.clone()), None);
}

#[test]
fn escape_cancels_the_branch_overlay() {
    let mut app = App::new(snapshot(&["main"], Some("main"), &[]), 0);
    press(&mut app, KeyCode::Char('b'), 0);
    press(&mut app, KeyCode::Char('a'), 0);
    typed(&mut app, "q", 0);
    assert!(!app.exit);
    press(&mut app, KeyCode::Esc, 0);
    assert!(app.branch_input.is_none());
}

#[test]
fn committing_from_the_popup() {
    let mut app = App::new(snapshot(&["main"], Some("main"), &["M  a.txt"]), 0);
    press(&mut app, KeyCode::Char('l'), 0);
    press(&mut app, KeyCode::Char('m'), 0);
    assert_eq!(app.popup_region, Region::CommitMessage);
    press(&mut app, KeyCode::Enter, 0);
    assert!(app.commit_message_editing);
    assert_eq!(press(&mut app, KeyCode::Enter, 2), Action::Nothing);
    assert_eq!(app.commit_input.error, Some("Commit message cannot be empty".to_string()));
    assert!(app.notification.is_none());
    typed(&mut app, "fix it", 0);
    assert_eq!(app.commit_input.error, None);
    let action = press(&mut app, KeyCode::Enter, 0);
    assert_eq!(action, Action::Commit("fix it".to_string()));
    app.complete(action, Ok(snapshot(&["main"], Some("main"), &[])), 4);
    assert!(!app.commit_message_editing);
    assert_eq!(app.commit_input.value, "");
    assert!(app.repo_status.changes.is_empty());
    assert_eq!(app.notification.as_ref().map(|n| n.message.as_str()), Some("Committed: fix it"));
}

#[test]
fn region_keys_and_popup_navigation() {
    let mut app = App::new(snapshot(&["main"], Some("main"), &[]), 0);
    assert_eq!(app.selected_region, Region::Commits);
    for (c, region) in [('b', Region::Branches), ('d', Region::Details), ('s', Region::Stashes), ('c', Region::Commits)] {
        press(&mut app, KeyCode::Char(c), 0);
        assert_eq!(app.selected_region, region);
    }
    press(&mut app, KeyCode::Char('l'), 0);
    press(&mut app, KeyCode::Char('v'), 0);
    assert_eq!(app.popup_region, Region::ChangeViewer);
    press(&mut app, KeyCode::Char('b'), 0);
    assert_eq!(app.selected_region, Region::Commits);
    press(&mut app, KeyCode::Esc, 0);
    assert!(!app.show_changes_popup);
    let release = KeyEvent::new_with_kind(KeyCode::Char('q'), KeyEventKind::Release);
    assert_eq!(app.handle_key_event(release, 0), Action::Nothing);
    assert!(!app.exit);
    press(&mut app, KeyCode::Char('q'), 0);
    assert!(app.exit);
}

#[test]
fn commit_hover_moves_and_is_remembered() {
    let mut app = App::new(snapshot(&["main"], Some("main"), &[]), 0);
    assert_eq!(app.commits.hovered, Some(0));
    press(&mut app, KeyCode::Down, 0);
    assert_eq!(app.hovered_commit_id, Some("a1b2".to_string()));
    let mut snap = snapshot(&["main"], Some("main"), &[]);
    snap.commits = Ok(vec![
        Commit { id: "ffff".into(), summary: "new".into(), branches: vec![] },
        Commit { id: "c3d4".into(), summary: "second".into(), branches: vec![] },
        Commit { id: "a1b2".into(), summary: "first".into(), branches: vec![] },
    ]);
    app.refresh_all(snap, 1000);
    assert_eq!(app.commits.hovered, Some(2));
    assert_eq!(app.hovered_commit_id, Some("a1b2".to_string()));
}

#[test]
fn refresh_is_due_after_the_interval_and_notices_expire() {
    let mut app = App::new(snapshot(&["main"], Some("main"), &[]), 0);
    assert_eq!(app.refresh_interval, REFRESH_INTERVAL_MS);
    assert!(!app.refresh_if_due(999));
    assert!(app.refresh_if_due(1000));
    app.show_notification("first".to_string(), 1000);
    app.show_notification("second".to_string(), 2000);
    app.refresh_if_due(11_999);
    assert_eq!(app.notification.as_ref().map(|n| n.message.as_str()), Some("second"));
    app.refresh_if_due(12_000);
    assert!(app.notification.is_none());
}

#[test]
fn fetch_errors_show_in_place_and_keep_the_rest() {
    let mut snap = snapshot(&[], None, &[]);
    snap.commits = Err("not a git repository".to_string());
    snap.status = repo_status_from_report(Err("not a git repository".to_string()), None);
    let app = App::new(snap, 0);
    assert_eq!(app.commits.status, Some("not a git repository".to_string()));
    assert!(app.commits.commits.is_empty());
    assert_eq!(app.repo_status.error, Some("not a git repository".to_string()));
    assert_eq!(app.selected_change, None);
    assert_eq!(app.selected_branch.hovered, None);
}

#[test]
fn change_selection_follows_preferred_path() {
    let mut app = App::new(snapshot(&["main"], Some("main"), &[" M a", " M b", " M c"]), 0);
    app.selected_change = Some(2);
    app.reselect_change(Some("a".to_string()));
    assert_eq!(app.selected_change, Some(0));
    app.reselect_change(Some("zzz".to_string()));
    assert_eq!(app.selected_change, Some(0));
    app.move_change_selection(5);
    assert_eq!(app.selected_change, Some(2));
    app.move_change_selection(-1);
    assert_eq!(app.selected_change, Some(1));
    app.move_change_selection(isize::MIN);
    assert_eq!(app.selected_change, Some(0));
    app.repo_status.changes.clear();
    app.ensure_change_selection();
    assert_eq!(app.selected_change, None);
}

#[test]
fn branch_field_keys_leave_focus_alone() {
    let mut app = App::new(snapshot(&["main"], Some("main"), &[]), 0);
    press(&mut app, KeyCode::Char('b'), 0);
    press(&mut app, KeyCode::Char('a'), 0);
    let popup_region = app.popup_region;
    for key in [KeyCode::Char('l'), KeyCode::Char('v'), KeyCode::Down, KeyCode::Esc] {
        press(&mut app, key, 0);
        assert_eq!(app.popup_region, popup_region);
        assert!(!app.show_changes_popup);
        assert_eq!(app.selected_region, Region::Branches);
    }
    assert!(app.branch_input.is_none());
}
