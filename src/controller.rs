//! The controller: the view-models, keyboard focus, overlays and the refresh clock.
use vstd::prelude::*;
use crate::branch_input::BranchInput;
use crate::branches::{kept_selection, spec_branch_hover};
use crate::commits::{spec_commit_hover, CommitsState};
use crate::format::to_owned_string;
use crate::git::{BranchInfo, Commit, FileChange, RepoStatus};
use crate::input::TextInput;
use crate::notification::{expiry, Notification};
use crate::regions::Region;
use crate::text::{position_of, str_eq};

verus! {

/// Milliseconds between two full refreshes.
pub const REFRESH_INTERVAL_MS: u64 = 1000;

/// Everything fetched in one refresh: branches, the commit log and the status.
pub struct Snapshot {
    pub branches: BranchInfo,
    pub commits: Result<Vec<Commit>, String>,
    pub status: RepoStatus,
}

/// The paths of the changes, in order.
pub open spec fn change_paths(cs: Seq<FileChange>) -> Seq<Seq<char>> {
    cs.map_values(|c: FileChange| c.path@)
}

/// The change selection after the list was replaced: the preferred path when it is
/// listed, else the previous index clamped into range; nothing for an empty list.
pub open spec fn spec_reselect(
    cs: Seq<FileChange>,
    previous: Option<usize>,
    preferred: Option<Seq<char>>,
) -> Option<usize> {
    if cs.len() == 0 {
        None
    } else {
        let by_path = match preferred {
            Some(p) => position_of(change_paths(cs), p),
            None => None,
        };
        match by_path {
            Some(i) => Some(i as usize),
            None => {
                let prev = match previous {
                    Some(i) => i as int,
                    None => 0,
                };
                Some((if prev < cs.len() - 1 {
                    prev
                } else {
                    cs.len() - 1
                }) as usize)
            },
        }
    }
}

/// After the list of changes is replaced, a preferred path that is still listed
/// becomes the selection at its first position; a path that is gone (a discarded
/// file) leaves the previous index, clamped into the new list.
pub proof fn lemma_reselect_rule(cs: Seq<FileChange>, previous: Option<usize>, path: Seq<char>)
    requires
        cs.len() <= usize::MAX,
    ensures
        change_paths(cs).contains(path) ==> (spec_reselect(cs, previous, Some(path)) matches Some(i)
            && cs[i as int].path@ == path && forall|j: int| 0 <= j < i ==> cs[j].path@ != path),
        !change_paths(cs).contains(path) ==> spec_reselect(cs, previous, Some(path)) == spec_reselect(
            cs,
            previous,
            None,
        ),
{
    crate::text::lemma_position_contains(change_paths(cs), path);
    crate::text::lemma_position_bound(change_paths(cs), path);
    if let Some(i) = position_of(change_paths(cs), path) {
        assert(change_paths(cs)[i] == cs[i].path@);
        assert forall|j: int| 0 <= j < i implies cs[j].path@ != path by {
            lemma_position_first(change_paths(cs), path, j);
            assert(change_paths(cs)[j] == cs[j].path@);
        }
    }
}

proof fn lemma_position_first(s: Seq<Seq<char>>, x: Seq<char>, j: int)
    requires
        position_of(s, x) matches Some(i) && 0 <= j < i,
    ensures
        s[j] != x,
    decreases s.len(),
{
    if s.len() > 0 {
        match position_of(s.drop_last(), x) {
            Some(i) => {
                crate::text::lemma_position_bound(s.drop_last(), x);
                lemma_position_first(s.drop_last(), x, j);
                assert(s.drop_last()[j] == s[j]);
            },
            None => {
                crate::text::lemma_position_contains(s.drop_last(), x);
                assert(!s.drop_last().contains(x));
                assert(s.drop_last()[j] == s[j]);
                if s[j] == x {
                    assert(s.drop_last().contains(x));
                }
            },
        }
    }
}

/// The change selection after moving `delta` rows from the (clamped) current
/// one, clamped to a list of `n` rows; nothing for an empty list.
pub open spec fn spec_move_change(n: nat, selected: Option<usize>, delta: int) -> Option<usize> {
    if n == 0 {
        None
    } else {
        let start = match selected {
            Some(i) => if (i as int) < n - 1 {
                i as int
            } else {
                n - 1
            },
            None => 0,
        };
        let target = start + delta;
        Some((if target < 0 {
            0
        } else if target > n - 1 {
            n - 1
        } else {
            target
        }) as usize)
    }
}

/// The whole interactive state.
#[derive(Debug)]
pub struct App {
    pub selected_region: Region,
    pub exit: bool,
    pub selected_branch: BranchInfo,
    pub commits: CommitsState,
    pub hovered_commit_id: Option<String>,
    pub branch_input: Option<BranchInput>,
    pub repo_status: RepoStatus,
    pub selected_change: Option<usize>,
    pub commit_input: TextInput,
    pub commit_message_editing: bool,
    pub last_refresh: u64,
    pub refresh_interval: u64,
    pub notification: Option<Notification>,
    pub show_changes_popup: bool,
    pub popup_region: Region,
}

impl App {
    /// Every hover and selection index names a live row, and both editors keep
    /// their cursors on character boundaries.
    pub open spec fn wf(&self) -> bool {
        &&& (self.selected_branch.hovered matches Some(i) ==> i
            < self.selected_branch.branches@.len())
        &&& self.commits.wf()
        &&& (self.selected_change matches Some(i) ==> i < self.repo_status.changes@.len())
        &&& (self.branch_input matches Some(b) ==> b.wf())
        &&& self.commit_input.wf()
    }

    /// A fresh session built from a first snapshot taken at `now`.
    pub fn new(snapshot: Snapshot, now: u64) -> (r: App)
        ensures
            r.wf(),
            r.selected_region == Region::Commits,
            !r.exit,
            r.branch_input is None,
            !r.show_changes_popup,
            r.notification is None,
            r.last_refresh == now,
            r.refresh_interval == REFRESH_INTERVAL_MS,
            r.selected_branch.branches@ == snapshot.branches.branches@,
            r.selected_branch.current == snapshot.branches.current,
            r.selected_branch.hovered == spec_branch_hover(&snapshot.branches, None),
            r.selected_branch.selected is None,
            r.repo_status == snapshot.status,
            r.selected_change == spec_reselect(snapshot.status.changes@, None, None),
            match snapshot.commits {
                Ok(cs) => r.commits.commits@ == cs@ && r.commits.hovered == spec_commit_hover(
                    cs@,
                    None,
                ),
                Err(e) => r.commits.commits@.len() == 0 && r.commits.status == Some(e),
            },
            r.commit_input.value@.len() == 0,
            !r.commit_message_editing,
    {
        let mut app = App {
            selected_region: Region::Commits,
            exit: false,
            selected_branch: BranchInfo::default(),
            commits: CommitsState::default(),
            hovered_commit_id: None,
            branch_input: None,
            repo_status: RepoStatus::default(),
            selected_change: None,
            commit_input: TextInput::default(),
            commit_message_editing: false,
            last_refresh: now,
            refresh_interval: REFRESH_INTERVAL_MS,
            notification: None,
            show_changes_popup: false,
            popup_region: Region::Changes,
        };
        proof {
            app.commit_input.lemma_empty_wf();
        }
        app.refresh_all(snapshot, now);
        app
    }

    /// Drops an expired notice and tells whether a full refresh is due at `now`.
    pub fn refresh_if_due(&mut self, now: u64) -> (r: bool)
        requires
            old(self).wf(),
        ensures
            same_focus(old(self), final(self)),
            final(self).wf(),
            r == (now as int >= old(self).last_refresh as int + old(self).refresh_interval as int),
            final(self).notification == (match old(self).notification {
                Some(n) => if now >= n.expires_at {
                    None
                } else {
                    Some(n)
                },
                None => None,
            }),
            final(self).selected_branch == old(self).selected_branch,
            final(self).commits == old(self).commits,
            final(self).repo_status == old(self).repo_status,
            final(self).last_refresh == old(self).last_refresh,
    {
        self.clear_expired_notification(now);
        now >= self.last_refresh && now - self.last_refresh >= self.refresh_interval
    }

    /// Replaces every view-model with a snapshot taken at `now`.
    pub fn refresh_all(&mut self, snapshot: Snapshot, now: u64)
        requires
            old(self).wf(),
        ensures
            final(self).selected_branch.status == snapshot.branches.status,
            final(self).selected_branch.hovered matches Some(i) ==> i < snapshot.branches.branches@.len(),
            match snapshot.commits {
                Ok(_) => final(self).commits.status is None,
                Err(_) => final(self).commits.hovered is None,
            },
            same_focus(old(self), final(self)),
            final(self).wf(),
            final(self).selected_branch.branches@ == snapshot.branches.branches@,
            final(self).selected_branch.current == snapshot.branches.current,
            final(self).selected_branch.hovered == spec_branch_hover(
                &snapshot.branches,
                old(self).selected_branch.hovered,
            ),
            final(self).selected_branch.selected == kept_selection(
                snapshot.branches.branches@,
                old(self).selected_branch.selected,
            ),
            final(self).repo_status == snapshot.status,
            final(self).selected_change == spec_reselect(
                snapshot.status.changes@,
                old(self).selected_change,
                None,
            ),
            final(self).last_refresh == now,
            final(self).notification == old(self).notification,
            match snapshot.commits {
                Ok(cs) => final(self).commits.commits@ == cs@ && final(self).commits.hovered
                    == spec_commit_hover(cs@, opt_str_view_string(old(self).hovered_commit_id)),
                Err(e) => final(self).commits.commits@.len() == 0 && final(self).commits.status
                    == Some(e),
            },
    {
        self.refresh_branches(snapshot.branches, snapshot.commits);
        self.refresh_status(snapshot.status);
        self.last_refresh = now;
    }

    /// Replaces the branch model, keeping hover and selection, then the commit log.
    pub fn refresh_branches(&mut self, fetched: BranchInfo, commits: Result<Vec<Commit>, String>)
        requires
            old(self).wf(),
        ensures
            match commits {
                Ok(_) => final(self).commits.status is None,
                Err(_) => final(self).commits.hovered is None,
            },
            same_focus(old(self), final(self)),
            final(self).wf(),
            final(self).selected_branch.branches@ == fetched.branches@,
            final(self).selected_branch.current == fetched.current,
            final(self).selected_branch.status == fetched.status,
            final(self).selected_branch.hovered == spec_branch_hover(
                &fetched,
                old(self).selected_branch.hovered,
            ),
            final(self).selected_branch.selected == kept_selection(
                fetched.branches@,
                old(self).selected_branch.selected,
            ),
            match commits {
                Ok(cs) => final(self).commits.commits@ == cs@ && final(self).commits.hovered
                    == spec_commit_hover(cs@, opt_str_view_string(old(self).hovered_commit_id)),
                Err(e) => final(self).commits.commits@.len() == 0 && final(self).commits.status
                    == Some(e),
            },
            final(self).repo_status == old(self).repo_status,
            final(self).selected_change == old(self).selected_change,
            final(self).notification == old(self).notification,
            final(self).branch_input == old(self).branch_input,
            final(self).commit_input == old(self).commit_input,
            final(self).last_refresh == old(self).last_refresh,
    {
        let mut prev = BranchInfo::default();
        core::mem::swap(&mut prev, &mut self.selected_branch);
        self.selected_branch = crate::branches::refresh(prev, fetched);
        self.refresh_commits(commits);
    }

    /// Replaces the commit log, keeping the hover on the same commit id.
    pub fn refresh_commits(&mut self, fetched: Result<Vec<Commit>, String>)
        requires
            old(self).wf(),
        ensures
            same_focus(old(self), final(self)),
            final(self).wf(),
            match fetched {
                Ok(cs) => final(self).commits.commits@ == cs@ && final(self).commits.status is None
                    && final(self).commits.hovered == spec_commit_hover(
                    cs@,
                    opt_str_view_string(old(self).hovered_commit_id),
                ),
                Err(e) => final(self).commits.commits@.len() == 0 && final(self).commits.status
                    == Some(e) && final(self).commits.hovered is None,
            },
            opt_str_view_string(final(self).hovered_commit_id) == (match final(self).commits.hovered {
                Some(i) => Some(final(self).commits.commits@[i as int].id@),
                None => None,
            }),
            final(self).selected_branch == old(self).selected_branch,
            final(self).repo_status == old(self).repo_status,
            final(self).selected_change == old(self).selected_change,
            final(self).notification == old(self).notification,
            final(self).branch_input == old(self).branch_input,
            final(self).commit_input == old(self).commit_input,
            final(self).last_refresh == old(self).last_refresh,
    {
        let previous: Option<&str> = match &self.hovered_commit_id {
            Some(id) => Some(id.as_str()),
            None => None,
        };
        let state = CommitsState::refresh(previous, fetched);
        self.commits = state;
        self.sync_hovered_commit_id();
    }

    /// Remembers the id of the hovered commit.
    pub(crate) fn sync_hovered_commit_id(&mut self)
        requires
            old(self).commits.wf(),
        ensures
            opt_str_view_string(final(self).hovered_commit_id) == (match final(self).commits.hovered {
                Some(i) => Some(final(self).commits.commits@[i as int].id@),
                None => None,
            }),
            final(self).commits == old(self).commits,
            final(self).selected_branch == old(self).selected_branch,
            final(self).repo_status == old(self).repo_status,
            final(self).selected_change == old(self).selected_change,
            final(self).notification == old(self).notification,
            final(self).branch_input == old(self).branch_input,
            final(self).commit_input == old(self).commit_input,
            final(self).last_refresh == old(self).last_refresh,
            final(self).selected_region == old(self).selected_region,
            final(self).exit == old(self).exit,
            final(self).show_changes_popup == old(self).show_changes_popup,
            final(self).popup_region == old(self).popup_region,
            final(self).commit_message_editing == old(self).commit_message_editing,
            final(self).refresh_interval == old(self).refresh_interval,
    {
        self.hovered_commit_id = match self.commits.hovered_commit_id() {
            Some(id) => Some(to_owned_string(id)),
            None => None,
        };
    }

    /// Replaces the status and clamps the change selection into the new list.
    pub fn refresh_status(&mut self, status: RepoStatus)
        requires
            old(self).wf(),
        ensures
            same_focus(old(self), final(self)),
            final(self).wf(),
            final(self).repo_status == status,
            final(self).selected_change == spec_reselect(status.changes@, old(self).selected_change, None),
            final(self).selected_branch == old(self).selected_branch,
            final(self).commits == old(self).commits,
            final(self).notification == old(self).notification,
            final(self).branch_input == old(self).branch_input,
            final(self).commit_input == old(self).commit_input,
            final(self).last_refresh == old(self).last_refresh,
    {
        self.repo_status = status;
        self.ensure_change_selection();
    }

    /// Shows `message` until ten seconds after `now`, replacing any earlier notice.
    pub fn show_notification(&mut self, message: String, now: u64)
        ensures
            final(self).notification == Some(Notification { message, expires_at: expiry(now) }),
            final(self).selected_branch == old(self).selected_branch,
            final(self).commits == old(self).commits,
            final(self).repo_status == old(self).repo_status,
            final(self).selected_change == old(self).selected_change,
            final(self).branch_input == old(self).branch_input,
            final(self).commit_input == old(self).commit_input,
            final(self).hovered_commit_id == old(self).hovered_commit_id,
            final(self).last_refresh == old(self).last_refresh,
            final(self).selected_region == old(self).selected_region,
            final(self).exit == old(self).exit,
            final(self).show_changes_popup == old(self).show_changes_popup,
            final(self).popup_region == old(self).popup_region,
            final(self).commit_message_editing == old(self).commit_message_editing,
            final(self).refresh_interval == old(self).refresh_interval,
    {
        self.notification = Some(Notification::new(message, now));
    }

    /// Drops the notice once `now` reaches its expiry.
    pub fn clear_expired_notification(&mut self, now: u64)
        ensures
            same_focus(old(self), final(self)),
            final(self).notification == (match old(self).notification {
                Some(n) => if now >= n.expires_at {
                    None
                } else {
                    Some(n)
                },
                None => None,
            }),
            final(self).selected_branch == old(self).selected_branch,
            final(self).commits == old(self).commits,
            final(self).repo_status == old(self).repo_status,
            final(self).selected_change == old(self).selected_change,
            final(self).branch_input == old(self).branch_input,
            final(self).commit_input == old(self).commit_input,
            final(self).hovered_commit_id == old(self).hovered_commit_id,
            final(self).last_refresh == old(self).last_refresh,
            final(self).refresh_interval == old(self).refresh_interval,
    {
        let expired = match &self.notification {
            Some(n) => n.is_expired(now),
            None => false,
        };
        if expired {
            self.notification = None;
        }
    }

    /// Ends the session.
    pub fn exit(&mut self)
        ensures
            *final(self) == (App { exit: true, ..*old(self) }),
    {
        self.exit = true;
    }

    /// Gives keyboard focus to `region`.
    pub fn select_region(&mut self, region: Region)
        ensures
            *final(self) == (App { selected_region: region, ..*old(self) }),
    {
        self.selected_region = region;
    }

    /// Opens the branch-name field, empty.
    pub fn start_branch_input(&mut self)
        requires
            old(self).wf(),
        ensures
            final(self).wf(),
            final(self).branch_input matches Some(b) && b.value@.len() == 0 && b.cursor == 0
                && b.error is None,
            *final(self) == (App { branch_input: final(self).branch_input, ..*old(self) }),
    {
        self.branch_input = Some(BranchInput::default());
    }

    /// Clamps the change selection into the list (the first row when unset).
    pub fn ensure_change_selection(&mut self)
        ensures
            final(self).selected_change == spec_reselect(
                old(self).repo_status.changes@,
                old(self).selected_change,
                None,
            ),
            final(self).selected_change matches Some(i) ==> i < final(self).repo_status.changes@.len(),
            final(self).repo_status == old(self).repo_status,
            final(self).selected_branch == old(self).selected_branch,
            final(self).commits == old(self).commits,
            final(self).notification == old(self).notification,
            final(self).branch_input == old(self).branch_input,
            final(self).commit_input == old(self).commit_input,
            final(self).hovered_commit_id == old(self).hovered_commit_id,
            final(self).last_refresh == old(self).last_refresh,
            final(self).selected_region == old(self).selected_region,
            final(self).exit == old(self).exit,
            final(self).show_changes_popup == old(self).show_changes_popup,
            final(self).popup_region == old(self).popup_region,
            final(self).commit_message_editing == old(self).commit_message_editing,
            final(self).refresh_interval == old(self).refresh_interval,
    {
        self.reselect_change(None);
    }

    /// Moves the change selection by `delta` rows, clamped to the list.
    pub fn move_change_selection(&mut self, delta: isize)
        ensures
            final(self).selected_change == spec_move_change(
                old(self).repo_status.changes@.len(),
                old(self).selected_change,
                delta as int,
            ),
            final(self).selected_change == (if old(self).repo_status.changes@.len() == 0 {
                None
            } else {
                let n = old(self).repo_status.changes@.len() as int;
                let start = match old(self).selected_change {
                    Some(i) => if (i as int) < n - 1 {
                        i as int
                    } else {
                        n - 1
                    },
                    None => 0,
                };
                let target = start + delta as int;
                Some((if target < 0 {
                    0
                } else if target > n - 1 {
                    n - 1
                } else {
                    target
                }) as usize)
            }),
            final(self).repo_status == old(self).repo_status,
            final(self).selected_branch == old(self).selected_branch,
            final(self).commits == old(self).commits,
            final(self).notification == old(self).notification,
            final(self).branch_input == old(self).branch_input,
            final(self).commit_input == old(self).commit_input,
            final(self).hovered_commit_id == old(self).hovered_commit_id,
            final(self).last_refresh == old(self).last_refresh,
            final(self).selected_region == old(self).selected_region,
            final(self).exit == old(self).exit,
            final(self).show_changes_popup == old(self).show_changes_popup,
            final(self).popup_region == old(self).popup_region,
            final(self).commit_message_editing == old(self).commit_message_editing,
            final(self).refresh_interval == old(self).refresh_interval,
    {
        let len = self.repo_status.changes.len();
        if len == 0 {
            self.selected_change = None;
            return;
        }
        let last = len - 1;
        let current = match self.selected_change {
            Some(i) => if i < last {
                i
            } else {
                last
            },
            None => 0,
        };
        let next = if delta >= 0 {
            let d = delta as usize;
            if d >= last - current {
                last
            } else {
                current + d
            }
        } else {
            let d = (-(delta + 1)) as usize + 1;
            if d >= current {
                0
            } else {
                current - d
            }
        };
        self.selected_change = Some(next);
    }

    /// After the list of changes was replaced: select the preferred path when it is
    /// listed, else keep the previous index clamped into range.
    pub fn reselect_change(&mut self, preferred_path: Option<String>)
        ensures
            final(self).selected_change == spec_reselect(
                old(self).repo_status.changes@,
                old(self).selected_change,
                opt_str_view_string(preferred_path),
            ),
            final(self).selected_change matches Some(i) ==> i < final(self).repo_status.changes@.len(),
            final(self).repo_status == old(self).repo_status,
            final(self).selected_branch == old(self).selected_branch,
            final(self).commits == old(self).commits,
            final(self).notification == old(self).notification,
            final(self).branch_input == old(self).branch_input,
            final(self).commit_input == old(self).commit_input,
            final(self).hovered_commit_id == old(self).hovered_commit_id,
            final(self).last_refresh == old(self).last_refresh,
            final(self).selected_region == old(self).selected_region,
            final(self).exit == old(self).exit,
            final(self).show_changes_popup == old(self).show_changes_popup,
            final(self).popup_region == old(self).popup_region,
            final(self).commit_message_editing == old(self).commit_message_editing,
            final(self).refresh_interval == old(self).refresh_interval,
    {
        let len = self.repo_status.changes.len();
        if len == 0 {
            self.selected_change = None;
            return;
        }
        if let Some(path) = preferred_path {
            if let Some(idx) = self.find_change(path.as_str()) {
                proof {
                    crate::text::lemma_position_bound(change_paths(self.repo_status.changes@), path@);
                }
                self.selected_change = Some(idx);
                return;
            }
        }
        let last = len - 1;
        let current = match self.selected_change {
            Some(i) => if i < last {
                i
            } else {
                last
            },
            None => 0,
        };
        self.selected_change = Some(current);
    }

    /// Index of the first change with the given path.
    fn find_change(&self, path: &str) -> (r: Option<usize>)
        ensures
            r matches Some(i) ==> position_of(change_paths(self.repo_status.changes@), path@) == Some(
                i as int,
            ),
            r is None ==> position_of(change_paths(self.repo_status.changes@), path@) is None,
    {
        let ghost paths = change_paths(self.repo_status.changes@);
        let mut i: usize = 0;
        proof {
            assert(paths.take(0) =~= Seq::<Seq<char>>::empty());
        }
        while i < self.repo_status.changes.len()
            invariant
                i <= self.repo_status.changes@.len(),
                paths == change_paths(self.repo_status.changes@),
                position_of(paths.take(i as int), path@) is None,
            decreases self.repo_status.changes@.len() - i,
        {
            proof {
                assert(paths.take(i + 1).drop_last() =~= paths.take(i as int));
            }
            if str_eq(self.repo_status.changes[i].path.as_str(), path) {
                proof {
                    assert(paths[i as int] == self.repo_status.changes@[i as int].path@);
                    crate::text::lemma_position_prefix(paths, path@, i + 1);
                }
                return Some(i);
            }
            i = i + 1;
        }
        proof {
            assert(paths.take(i as int) =~= paths);
        }
        None
    }
}

/// Focus, overlays and the clock's interval are the same in `a` and `b`.
pub open spec fn same_focus(a: &App, b: &App) -> bool {
    &&& a.selected_region == b.selected_region
    &&& a.exit == b.exit
    &&& a.show_changes_popup == b.show_changes_popup
    &&& a.popup_region == b.popup_region
    &&& a.commit_message_editing == b.commit_message_editing
    &&& a.refresh_interval == b.refresh_interval
    &&& a.branch_input == b.branch_input
    &&& a.commit_input == b.commit_input
}

/// The view of an optional owned string.
pub open spec fn opt_str_view_string(s: Option<String>) -> Option<Seq<char>> {
    match s {
        Some(x) => Some(x@),
        None => None,
    }
}

} // verus!
