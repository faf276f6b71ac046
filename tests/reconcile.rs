use repo_dash::branches::{move_hover_down, move_hover_up, preferred_hover_index, refresh};
use repo_dash::commits::{self, CommitsState};
use repo_dash::git::{BranchInfo, BranchSummary, Commit};
use repo_dash::viewport::viewport;

fn make_info(names: &[&str], current: Option<&str>) -> BranchInfo {
    BranchInfo {
        branches: names
            .iter()
            .map(|name| BranchSummary {
                name: (*name).to_string(),
                ahead: None,
                behind: None,
                is_remote: false,
                remote_ref: None,
            })
            .collect(),
        current: current.map(str::to_string),
        status: None,
        hovered: None,
        selected: None,
    }
}

fn make_commit(id: &str, summary: &str, branches: &[&str]) -> Commit {
    Commit {
        id: id.to_string(),
        summary: summary.to_string(),
        branches: branches.iter().map(|b| b.to_string()).collect(),
    }
}

#[test]
fn preferred_hover_prefers_previous_selection() {
    let info = make_info(&["main", "feature"], Some("main"));

    assert_eq!(preferred_hover_index(&info, Some(1)), Some(1));
}

#[test]
fn preferred_hover_defaults_to_current_when_no_previous() {
    let info = make_info(&["main", "feature"], Some("main"));

    assert_eq!(preferred_hover_index(&info, None), Some(0));
}

// An explicit previous index is used only while it is in range; index 10 in a
// two-row list is not, so the hover falls back to the checked-out branch.
#[test]
fn preferred_hover_clamps_out_of_range_previous() {
    let info = make_info(&["main", "feature"], Some("main"));

    assert_eq!(preferred_hover_index(&info, Some(10)), Some(0));
}

#[test]
fn out_of_range_previous_without_current_goes_to_first_row() {
    let info = make_info(&["main", "feature"], None);
    assert_eq!(preferred_hover_index(&info, Some(10)), Some(0));
    let empty = make_info(&[], Some("main"));
    assert_eq!(preferred_hover_index(&empty, Some(0)), None);
}

#[test]
fn hover_follows_current_branch_after_reorder() {
    let fetched = make_info(&["alpha", "beta", "main", "zeta"], Some("main"));
    let prev = make_info(&["main", "zeta"], Some("main"));
    let refreshed = refresh(prev, fetched);
    assert_eq!(refreshed.hovered, Some(2));

    let gone = make_info(&["alpha", "beta"], Some("main"));
    let refreshed = refresh(make_info(&["main"], Some("main")), gone);
    assert_eq!(refreshed.hovered, Some(0));

    let empty = make_info(&[], None);
    let refreshed = refresh(make_info(&["main"], Some("main")), empty);
    assert_eq!(refreshed.hovered, None);
}

#[test]
fn selection_survives_only_while_branch_exists() {
    let mut prev = make_info(&["main", "feature"], Some("main"));
    prev.selected = Some("feature".to_string());
    prev.hovered = Some(1);
    let refreshed = refresh(prev, make_info(&["feature", "main", "x"], Some("main")));
    assert_eq!(refreshed.selected, Some("feature".to_string()));
    assert_eq!(refreshed.hovered, Some(1));

    let mut prev = make_info(&["main", "feature"], Some("main"));
    prev.selected = Some("feature".to_string());
    let refreshed = refresh(prev, make_info(&["main"], Some("main")));
    assert_eq!(refreshed.selected, None);
}

#[test]
fn branch_hover_wraps_both_ways() {
    let mut info = make_info(&["a", "b", "c"], None);
    move_hover_up(&mut info);
    assert_eq!(info.hovered, Some(0));
    move_hover_up(&mut info);
    assert_eq!(info.hovered, Some(2));
    move_hover_down(&mut info);
    assert_eq!(info.hovered, Some(0));
}

#[test]
fn preferred_hover_keeps_previous_when_present() {
    let commits = vec![
        make_commit("a1b2", "first", &["main"]),
        make_commit("c3d4", "second", &["feature"]),
    ];

    let hovered = commits::preferred_hover_index(&commits, Some("c3d4"));

    assert_eq!(hovered, Some(1));
}

#[test]
fn preferred_hover_defaults_to_first_when_missing() {
    let commits = vec![make_commit("a1b2", "first", &["main"])];

    let hovered = commits::preferred_hover_index(&commits, Some("ffff"));

    assert_eq!(hovered, Some(0));
}

#[test]
fn hovered_commit_follows_its_id_across_refresh() {
    let fetched = vec![
        make_commit("e5f6", "third", &[]),
        make_commit("a1b2", "first", &["main"]),
        make_commit("c3d4", "second", &["feature"]),
    ];
    let state = CommitsState::refresh(Some("c3d4"), Ok(fetched));
    assert_eq!(state.hovered, Some(2));
    assert_eq!(state.hovered_commit_id(), Some("c3d4"));

    let state = CommitsState::refresh(Some("c3d4"), Ok(vec![make_commit("a1b2", "first", &[])]));
    assert_eq!(state.hovered, Some(0));

    let state = CommitsState::refresh(Some("c3d4"), Ok(Vec::new()));
    assert_eq!(state.hovered, None);
    assert_eq!(state.hovered_commit_id(), None);

    let state = CommitsState::refresh(None, Err("log failed".to_string()));
    assert!(state.commits.is_empty());
    assert_eq!(state.status, Some("log failed".to_string()));
    assert_eq!(state.hovered, None);
}

#[test]
fn hover_moves_wrap() {
    let commits = vec![
        make_commit("a1", "first", &["main"]),
        make_commit("b2", "second", &["feature"]),
    ];
    let mut state = CommitsState {
        commits,
        status: None,
        hovered: None,
    };

    state.move_hover_down();
    assert_eq!(state.hovered, Some(0));

    state.move_hover_down();
    assert_eq!(state.hovered, Some(1));

    state.move_hover_down();
    assert_eq!(state.hovered, Some(0));

    state.move_hover_up();
    assert_eq!(state.hovered, Some(1));
}

#[test]
fn viewport_shows_everything_when_it_fits() {
    assert_eq!(viewport(0, None, 5), (0, 0));
    assert_eq!(viewport(5, Some(3), 0), (0, 0));
    assert_eq!(viewport(3, Some(2), 5), (0, 3));
    assert_eq!(viewport(5, None, 5), (0, 5));
}

#[test]
fn viewport_centres_and_clamps_the_focus() {
    assert_eq!(viewport(20, Some(10), 5), (8, 13));
    assert_eq!(viewport(20, Some(1), 5), (0, 5));
    assert_eq!(viewport(20, Some(19), 5), (15, 20));
    assert_eq!(viewport(20, Some(100), 4), (16, 20));
    assert_eq!(viewport(20, None, 4), (0, 4));
}

#[test]
fn viewport_window_always_holds_the_focus() {
    for n in 0usize..12 {
        for h in 1u16..8 {
            for f in 0usize..14 {
                let (start, end) = viewport(n, Some(f), h);
                assert_eq!(end - start, n.min(h as usize));
                assert!(end <= n);
                if n > 0 {
                    let focus = f.min(n - 1);
                    assert!(start <= focus && focus < end);
                }
            }
        }
    }
}
