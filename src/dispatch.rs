//! Routing of key events, and the completion of actions run by the caller.
//!
//! Key handling never calls the version-control tool itself: when a key asks for
//! a mutation, it returns an `Action`. The caller runs it and reports back
//! through `App::complete`, with a fresh snapshot on success or the tool's
//! error message on failure.
use vstd::prelude::*;
use crate::branch_input::spec_branch_key;
use crate::branches::{kept_selection, move_hover_down, move_hover_up, spec_branch_hover};
use crate::commits::{step_down, step_up};
use crate::controller::{opt_str_view_string, same_focus, spec_move_change, spec_reselect, App, Snapshot};
use crate::format::{concat2, concat3, to_owned_string};
use crate::git::BranchInfo;
use crate::input::{spec_text_key, TextInput};
use crate::keys::{should_handle_key, KeyCode, KeyEvent, KeyEventKind};
use crate::notification::expiry;
use crate::regions::Region;
use crate::text::{byte_len, str_byte_len, str_eq, trim, trimmed};

verus! {

/// A mutation that the caller runs against the repository.
#[derive(Debug, PartialEq, Eq)]
pub enum Action {
    /// Nothing to run.
    Nothing,
    /// Check out a local branch by name.
    Checkout(String),
    /// Check out a remote branch by its remote reference.
    CheckoutRemote(String),
    DeleteBranch(String),
    /// Fetch all remotes; the current branch is pulled afterwards.
    FetchRemotes,
    /// Pull the named current branch.
    PullCurrent(String),
    /// Push the named current branch.
    PushCurrent(String),
    CreateBranch(String),
    Stage(String),
    Unstage(String),
    Discard(String),
    /// Commit the staged changes with this message.
    Commit(String),
}

/// Which layer receives keys: the branch-name field, the commit-message field,
/// the local-changes popup, or the panels.
pub open spec fn key_layer(app: &App) -> int {
    if app.branch_input is Some {
        0
    } else if app.show_changes_popup && app.commit_message_editing {
        1
    } else if app.show_changes_popup {
        2
    } else {
        3
    }
}

/// The panel that a global key focuses, if any.
pub open spec fn region_key(code: KeyCode) -> Option<Region> {
    match code {
        KeyCode::Char('b') => Some(Region::Branches),
        KeyCode::Char('c') => Some(Region::Commits),
        KeyCode::Char('d') => Some(Region::Details),
        KeyCode::Char('s') => Some(Region::Stashes),
        _ => None,
    }
}

/// The popup region that a key selects, if any.
pub open spec fn popup_key(code: KeyCode) -> Option<Region> {
    match code {
        KeyCode::Char('c') => Some(Region::Changes),
        KeyCode::Char('v') => Some(Region::ChangeViewer),
        KeyCode::Char('m') => Some(Region::CommitMessage),
        _ => None,
    }
}

/// A key that the panels handle whatever region has focus.
pub open spec fn is_global_key(code: KeyCode) -> bool {
    code == KeyCode::Char('q') || code == KeyCode::Char('l') || region_key(code) is Some
}

/// The id of the hovered commit, as remembered by the controller.
pub open spec fn hovered_id_synced(app: &App) -> bool {
    opt_str_view_string(app.hovered_commit_id) == (match app.commits.hovered {
        Some(i) => Some(app.commits.commits@[i as int].id@),
        None => None,
    })
}

/// The branch hover after a step up, unchanged for an empty list.
pub open spec fn branch_step_up(info: &BranchInfo) -> Option<usize> {
    if info.branches@.len() == 0 {
        info.hovered
    } else {
        step_up(info.branches@.len(), info.hovered)
    }
}

/// The branch hover after a step down, unchanged for an empty list.
pub open spec fn branch_step_down(info: &BranchInfo) -> Option<usize> {
    if info.branches@.len() == 0 {
        info.hovered
    } else {
        step_down(info.branches@.len(), info.hovered)
    }
}

/// The text of a message handed to the notice.
pub open spec fn notice_is(app: &App, text: Seq<char>, now: u64) -> bool {
    app.notification matches Some(n) && n.message@ == text && n.expires_at == expiry(now)
}

/// The view-models are those of `b`.
pub open spec fn same_models(a: &App, b: &App) -> bool {
    &&& a.selected_branch == b.selected_branch
    &&& a.commits == b.commits
    &&& a.repo_status == b.repo_status
    &&& a.hovered_commit_id == b.hovered_commit_id
}

impl App {
    /// Routes one key event. Releases are ignored. The branch-name field, when
    /// open, takes every key; then the commit-message field; then the popup; the
    /// panels get keys only when no overlay is open.
    pub fn handle_key_event(&mut self, key_event: KeyEvent, now: u64) -> (r: Action)
        requires
            old(self).wf(),
        ensures
            key_event.kind != KeyEventKind::Release && key_layer(old(self)) == 0 ==> same_focus_but_branch_input(
                old(self),
                final(self),
            ) && final(self).selected_change == old(self).selected_change,
            key_event.kind != KeyEventKind::Release && key_layer(old(self)) == 2
                && old(self).popup_region == Region::Changes && key_event.code == KeyCode::Up
                ==> final(self).selected_change == spec_move_change(
                old(self).repo_status.changes@.len(),
                old(self).selected_change,
                -1,
            ),
            key_event.kind != KeyEventKind::Release && key_layer(old(self)) == 2
                && old(self).popup_region == Region::Changes && key_event.code == KeyCode::Down
                ==> final(self).selected_change == spec_move_change(
                old(self).repo_status.changes@.len(),
                old(self).selected_change,
                1,
            ),
            key_event.kind != KeyEventKind::Release && key_layer(old(self)) == 3 && !is_global_key(
                key_event.code,
            ) && old(self).selected_region == Region::Commits ==> final(self).commits.commits@
                == old(self).commits.commits@ && final(self).commits.status == old(self).commits.status
                && hovered_id_synced(final(self)) && final(self).selected_branch
                == old(self).selected_branch && (key_event.code == KeyCode::Up
                ==> final(self).commits.hovered == step_up(
                old(self).commits.commits@.len(),
                old(self).commits.hovered,
            )) && (key_event.code == KeyCode::Down ==> final(self).commits.hovered == step_down(
                old(self).commits.commits@.len(),
                old(self).commits.hovered,
            )) && (key_event.code != KeyCode::Up && key_event.code != KeyCode::Down
                ==> final(self).commits == old(self).commits),
            key_event.kind != KeyEventKind::Release && key_layer(old(self)) == 3 && !is_global_key(
                key_event.code,
            ) && old(self).selected_region == Region::Branches ==> (key_event.code == KeyCode::Up
                ==> final(self).selected_branch.hovered == branch_step_up(&old(self).selected_branch))
                && (key_event.code == KeyCode::Down ==> final(self).selected_branch.hovered
                == branch_step_down(&old(self).selected_branch)) && (key_event.code != KeyCode::Up
                && key_event.code != KeyCode::Down ==> final(self).selected_branch
                == old(self).selected_branch) && final(self).commits == old(self).commits,
            final(self).wf(),
            key_event.kind == KeyEventKind::Release ==> *final(self) == *old(self) && r
                == Action::Nothing,
            key_event.kind != KeyEventKind::Release && key_layer(old(self)) == 0 ==> same_models(
                final(self),
                old(self),
            ) && final(self).exit == old(self).exit && final(self).show_changes_popup
                == old(self).show_changes_popup && final(self).selected_region
                == old(self).selected_region,
            key_event.kind != KeyEventKind::Release && key_layer(old(self)) == 0 && key_event.code
                == KeyCode::Esc ==> final(self).branch_input is None && r == Action::Nothing,
            key_event.kind != KeyEventKind::Release && key_layer(old(self)) == 1 && key_event.code
                == KeyCode::Esc ==> !final(self).commit_message_editing
                && final(self).commit_input.value@.len() == 0 && r == Action::Nothing,
            key_event.kind != KeyEventKind::Release && key_layer(old(self)) == 1 && key_event.code
                == KeyCode::Enter ==> (if trim(old(self).commit_input.value@).len() == 0 {
                r == Action::Nothing && (final(self).commit_input.error matches Some(e) && e@
                    == "Commit message cannot be empty"@)
            } else {
                r == Action::Commit(old(self).commit_input.value)
            }),
            key_event.kind != KeyEventKind::Release && key_layer(old(self)) == 1 && key_event.code
                != KeyCode::Esc && key_event.code != KeyCode::Enter && byte_len(
                old(self).commit_input.value@,
            ) + 4 <= isize::MAX ==> (final(self).commit_input.value@, final(self).commit_input.cursor as int)
                == spec_text_key(
                old(self).commit_input.value@,
                old(self).commit_input.cursor as int,
                key_event.code,
            ) && r == Action::Nothing,
            key_event.kind != KeyEventKind::Release && key_layer(old(self)) == 2 && (key_event.code
                == KeyCode::Esc || key_event.code == KeyCode::Char('q')) ==> !final(self).show_changes_popup
                && r == Action::Nothing,
            key_event.kind != KeyEventKind::Release && key_layer(old(self)) == 2 && popup_key(
                key_event.code,
            ) is Some ==> final(self).show_changes_popup && final(self).popup_region == popup_key(
                key_event.code,
            )->0 && r == Action::Nothing,
            key_event.kind != KeyEventKind::Release && (key_layer(old(self)) == 1 || key_layer(old(self)) == 2) ==> same_models(
                final(self),
                old(self),
            ) && final(self).selected_region == old(self).selected_region && final(self).exit
                == old(self).exit,
            key_event.kind != KeyEventKind::Release && key_layer(old(self)) == 3 && key_event.code
                == KeyCode::Char('q') ==> final(self).exit && r == Action::Nothing,
            key_event.kind != KeyEventKind::Release && key_layer(old(self)) == 3 && region_key(
                key_event.code,
            ) is Some ==> final(self).selected_region == region_key(key_event.code)->0 && r
                == Action::Nothing && same_models(final(self), old(self)),
            key_event.kind != KeyEventKind::Release && key_layer(old(self)) == 3 && key_event.code
                == KeyCode::Char('l') ==> final(self).show_changes_popup && final(self).popup_region
                == Region::Changes && r == Action::Nothing,
            key_event.kind != KeyEventKind::Release && key_layer(old(self)) == 3 ==> final(self).repo_status == old(self).repo_status && final(self).selected_change
                == old(self).selected_change,
            key_event.kind != KeyEventKind::Release && key_layer(old(self)) == 3
                && old(self).selected_region != Region::Branches && old(self).selected_region
                != Region::Commits ==> same_models(final(self), old(self)),
            key_event.kind != KeyEventKind::Release && key_layer(old(self)) == 3 && !is_global_key(
                key_event.code,
            ) ==> r == (if old(self).selected_region == Region::Branches {
                old(self).branch_key_action(key_event.code)
            } else {
                Action::Nothing
            }),
            key_event.kind != KeyEventKind::Release && key_layer(old(self)) == 3 && !is_global_key(
                key_event.code,
            ) && old(self).selected_region == Region::Branches && key_event.code == KeyCode::Char(
                'a',
            ) ==> final(self).branch_input is Some,
            key_event.kind != KeyEventKind::Release && key_layer(old(self)) == 2
                && old(self).popup_region == Region::Changes && key_event.code == KeyCode::Enter
                ==> r == old(self).stage_toggle_action(),
            key_event.kind != KeyEventKind::Release && key_layer(old(self)) == 2
                && old(self).popup_region == Region::Changes && key_event.code == KeyCode::Char('x')
                ==> r == old(self).discard_action(),
            key_event.kind != KeyEventKind::Release && key_layer(old(self)) == 2
                && old(self).popup_region == Region::CommitMessage && key_event.code
                == KeyCode::Enter ==> final(self).commit_message_editing,
            key_event.kind != KeyEventKind::Release && key_layer(old(self)) == 0 && key_event.code
                != KeyCode::Esc && key_event.code != KeyCode::Enter ==> r == Action::Nothing && (
            final(self).branch_input matches Some(b) && (byte_len(
                old(self).branch_input->0.value@,
            ) + 4 <= isize::MAX ==> (b.value@, b.cursor as int) == spec_branch_key(
                old(self).branch_input->0.value@,
                old(self).branch_input->0.cursor as int,
                key_event.code,
            ))),
            key_event.kind != KeyEventKind::Release && key_layer(old(self)) == 0 && key_event.code
                == KeyCode::Enter ==> (if trim(old(self).branch_input->0.value@).len() == 0 {
                r == Action::Nothing
            } else {
                r matches Action::CreateBranch(name) && name@ == trim(old(self).branch_input->0.value@)
            }),
    {
        if !should_handle_key(&key_event) {
            return Action::Nothing;
        }
        let code = key_event.code;
        if self.branch_input.is_some() {
            return self.handle_branch_input_key(code);
        }
        if self.show_changes_popup {
            if self.commit_message_editing {
                return self.handle_commit_message_key(code, now);
            }
            return self.handle_popup_keys(code);
        }
        match code {
            KeyCode::Char('q') => {
                self.exit();
                Action::Nothing
            },
            KeyCode::Char('b') => {
                self.select_region(Region::Branches);
                Action::Nothing
            },
            KeyCode::Char('c') => {
                self.select_region(Region::Commits);
                Action::Nothing
            },
            KeyCode::Char('d') => {
                self.select_region(Region::Details);
                Action::Nothing
            },
            KeyCode::Char('s') => {
                self.select_region(Region::Stashes);
                Action::Nothing
            },
            KeyCode::Char('l') => {
                self.show_changes_popup = true;
                self.popup_region = Region::Changes;
                Action::Nothing
            },
            _ => {
                if self.selected_region == Region::Branches {
                    self.handle_branch_region_keys(code, now)
                } else if self.selected_region == Region::Commits {
                    self.handle_commits_region_keys(code);
                    Action::Nothing
                } else {
                    Action::Nothing
                }
            },
        }
    }

    /// Keys while the branch-name field is open: `Esc` cancels, `Enter` submits,
    /// everything else edits.
    pub fn handle_branch_input_key(&mut self, code: KeyCode) -> (r: Action)
        requires
            old(self).wf(),
            old(self).branch_input is Some,
        ensures
            same_focus_but_branch_input(old(self), final(self)),
            final(self).notification == old(self).notification,
            final(self).wf(),
            same_models(final(self), old(self)),
            final(self).selected_region == old(self).selected_region,
            final(self).exit == old(self).exit,
            final(self).show_changes_popup == old(self).show_changes_popup,
            final(self).selected_change == old(self).selected_change,
            final(self).commit_input == old(self).commit_input,
            code == KeyCode::Esc ==> final(self).branch_input is None && r == Action::Nothing,
            code == KeyCode::Enter ==> (if trim(old(self).branch_input->0.value@).len() == 0 {
                r == Action::Nothing
            } else {
                r matches Action::CreateBranch(name) && name@ == trim(old(self).branch_input->0.value@)
            }),
            code != KeyCode::Esc && code != KeyCode::Enter ==> r == Action::Nothing && (
            final(self).branch_input matches Some(b) && b.error is None && (byte_len(
                old(self).branch_input->0.value@,
            ) + 4 <= isize::MAX ==> (b.value@, b.cursor as int) == spec_branch_key(
                old(self).branch_input->0.value@,
                old(self).branch_input->0.cursor as int,
                code,
            ))),
    {
        match code {
            KeyCode::Esc => {
                self.branch_input = None;
                Action::Nothing
            },
            KeyCode::Enter => self.submit_branch_input(),
            _ => {
                match &mut self.branch_input {
                    Some(input) => {
                        input.clamp_cursor();
                        if str_byte_len(input.value.as_str()) <= (isize::MAX as usize) - 4 {
                            input.handle_edit_key(code);
                        }
                        input.error = None;
                    },
                    None => {},
                }
                Action::Nothing
            },
        }
    }

    /// Submits the branch name: a blank name is refused inline; otherwise the
    /// trimmed name is to be created.
    pub fn submit_branch_input(&mut self) -> (r: Action)
        requires
            old(self).wf(),
        ensures
            final(self).notification == old(self).notification,
            final(self).wf(),
            same_models(final(self), old(self)),
            same_focus_but_branch_input(old(self), final(self)),
            final(self).selected_change == old(self).selected_change,
            match old(self).branch_input {
                None => r == Action::Nothing && final(self).branch_input is None,
                Some(b) => if trim(b.value@).len() == 0 {
                    r == Action::Nothing && (final(self).branch_input matches Some(nb) && nb.value
                        == b.value && nb.cursor == b.cursor && (nb.error matches Some(e) && e@
                        == "Branch name cannot be empty"@))
                } else {
                    (r matches Action::CreateBranch(name) && name@ == trim(b.value@))
                        && final(self).branch_input == old(self).branch_input
                },
            },
    {
        match &mut self.branch_input {
            None => Action::Nothing,
            Some(input) => {
                let name = trimmed(input.value.as_str());
                if name.as_str().is_empty() {
                    input.error = Some(to_owned_string("Branch name cannot be empty"));
                    Action::Nothing
                } else {
                    Action::CreateBranch(name)
                }
            },
        }
    }

    /// Keys while the commit message is being edited: `Esc` stops and discards,
    /// `Enter` commits a non-blank message, everything else edits.
    pub fn handle_commit_message_key(&mut self, code: KeyCode, now: u64) -> (r: Action)
        requires
            old(self).wf(),
        ensures
            final(self).wf(),
            same_models(final(self), old(self)),
            final(self).selected_region == old(self).selected_region,
            final(self).exit == old(self).exit,
            final(self).show_changes_popup == old(self).show_changes_popup,
            final(self).branch_input == old(self).branch_input,
            final(self).selected_change == old(self).selected_change,
            code == KeyCode::Esc ==> !final(self).commit_message_editing
                && final(self).commit_input.value@.len() == 0 && r == Action::Nothing,
            code == KeyCode::Enter ==> (if trim(old(self).commit_input.value@).len() == 0 {
                r == Action::Nothing && (final(self).commit_input.error matches Some(e) && e@
                    == "Commit message cannot be empty"@) && final(self).notification
                    == old(self).notification
            } else {
                r == Action::Commit(old(self).commit_input.value)
            }),
            code != KeyCode::Esc && code != KeyCode::Enter ==> final(self).commit_input.error is None,
            code != KeyCode::Esc && code != KeyCode::Enter ==> r == Action::Nothing && (byte_len(
                old(self).commit_input.value@,
            ) + 4 <= isize::MAX ==> (final(self).commit_input.value@, final(self).commit_input.cursor as int)
                == spec_text_key(
                old(self).commit_input.value@,
                old(self).commit_input.cursor as int,
                code,
            )),
    {
        match code {
            KeyCode::Esc => {
                self.commit_message_editing = false;
                self.commit_input = TextInput::default();
                proof {
                    self.commit_input.lemma_empty_wf();
                }
                Action::Nothing
            },
            KeyCode::Enter => {
                let message = trimmed(self.commit_input.value.as_str());
                if message.as_str().is_empty() {
                    self.commit_input.error = Some(to_owned_string("Commit message cannot be empty"));
                    Action::Nothing
                } else {
                    Action::Commit(self.commit_input.value.clone())
                }
            },
            _ => {
                if str_byte_len(self.commit_input.value.as_str()) <= (isize::MAX as usize) - 4 {
                    self.commit_input.handle_key(code);
                }
                self.commit_input.error = None;
                Action::Nothing
            },
        }
    }

    /// Keys in the local-changes popup: close it, switch its sub-focus, or act in
    /// the focused sub-region.
    pub fn handle_popup_keys(&mut self, code: KeyCode) -> (r: Action)
        requires
            old(self).wf(),
        ensures
            old(self).popup_region == Region::Changes && code == KeyCode::Up ==> final(self).selected_change
                == spec_move_change(old(self).repo_status.changes@.len(), old(self).selected_change, -1),
            old(self).popup_region == Region::Changes && code == KeyCode::Down ==> final(self).selected_change
                == spec_move_change(old(self).repo_status.changes@.len(), old(self).selected_change, 1),
            !(old(self).popup_region == Region::Changes && (code == KeyCode::Up || code == KeyCode::Down))
                ==> final(self).selected_change == old(self).selected_change,
            final(self).wf(),
            same_models(final(self), old(self)),
            final(self).selected_region == old(self).selected_region,
            final(self).exit == old(self).exit,
            final(self).branch_input == old(self).branch_input,
            final(self).commit_input == old(self).commit_input,
            code == KeyCode::Esc || code == KeyCode::Char('q') ==> !final(self).show_changes_popup
                && !final(self).commit_message_editing && r == Action::Nothing,
            popup_key(code) is Some ==> final(self).show_changes_popup == old(self).show_changes_popup
                && final(self).popup_region == popup_key(code)->0 && r == Action::Nothing,
            old(self).popup_region == Region::Changes && code == KeyCode::Enter ==> r
                == old(self).stage_toggle_action(),
            old(self).popup_region == Region::Changes && code == KeyCode::Char('x') ==> r
                == old(self).discard_action(),
            old(self).popup_region == Region::CommitMessage && code == KeyCode::Enter
                ==> final(self).commit_message_editing,
    {
        match code {
            KeyCode::Char('q') | KeyCode::Esc => {
                self.show_changes_popup = false;
                self.commit_message_editing = false;
                Action::Nothing
            },
            KeyCode::Char('c') => {
                self.popup_region = Region::Changes;
                Action::Nothing
            },
            KeyCode::Char('v') => {
                self.popup_region = Region::ChangeViewer;
                Action::Nothing
            },
            KeyCode::Char('m') => {
                self.popup_region = Region::CommitMessage;
                Action::Nothing
            },
            _ => {
                if self.popup_region == Region::Changes {
                    self.handle_changes_popup_key(code)
                } else if self.popup_region == Region::CommitMessage && code == KeyCode::Enter {
                    self.commit_message_editing = true;
                    Action::Nothing
                } else {
                    Action::Nothing
                }
            },
        }
    }

    /// Keys of the changes list: move the selection, stage or unstage, discard.
    pub fn handle_changes_popup_key(&mut self, code: KeyCode) -> (r: Action)
        requires
            old(self).wf(),
        ensures
            code == KeyCode::Up ==> final(self).selected_change == spec_move_change(
                old(self).repo_status.changes@.len(),
                old(self).selected_change,
                -1,
            ),
            code == KeyCode::Down ==> final(self).selected_change == spec_move_change(
                old(self).repo_status.changes@.len(),
                old(self).selected_change,
                1,
            ),
            code != KeyCode::Up && code != KeyCode::Down ==> final(self).selected_change
                == old(self).selected_change,
            final(self).wf(),
            same_models(final(self), old(self)),
            same_focus(old(self), final(self)),
            code == KeyCode::Enter ==> r == old(self).stage_toggle_action() && final(self).selected_change
                == old(self).selected_change,
            code == KeyCode::Char('x') ==> r == old(self).discard_action() && final(self).selected_change
                == old(self).selected_change,
            code != KeyCode::Enter && code != KeyCode::Char('x') ==> r == Action::Nothing,
    {
        match code {
            KeyCode::Up => {
                self.move_change_selection(-1);
                Action::Nothing
            },
            KeyCode::Down => {
                self.move_change_selection(1);
                Action::Nothing
            },
            KeyCode::Enter => self.toggle_stage_selected_change(),
            KeyCode::Char('x') => self.discard_selected_change(),
            _ => Action::Nothing,
        }
    }

    /// What staging-or-unstaging the selected change asks for.
    pub open spec fn stage_toggle_action(&self) -> Action {
        match self.selected_change {
            Some(i) => if i < self.repo_status.changes@.len() {
                if self.repo_status.changes@[i as int].staged {
                    Action::Unstage(self.repo_status.changes@[i as int].path)
                } else {
                    Action::Stage(self.repo_status.changes@[i as int].path)
                }
            } else {
                Action::Nothing
            },
            None => Action::Nothing,
        }
    }

    /// What discarding the selected change asks for.
    pub open spec fn discard_action(&self) -> Action {
        match self.selected_change {
            Some(i) => if i < self.repo_status.changes@.len() {
                Action::Discard(self.repo_status.changes@[i as int].path)
            } else {
                Action::Nothing
            },
            None => Action::Nothing,
        }
    }

    /// Stage the selected change, or unstage it when it is staged.
    pub fn toggle_stage_selected_change(&self) -> (r: Action)
        ensures
            r == self.stage_toggle_action(),
    {
        match self.selected_change {
            Some(idx) => {
                if idx < self.repo_status.changes.len() {
                    let change = &self.repo_status.changes[idx];
                    let path = change.path.clone();
                    if change.staged {
                        Action::Unstage(path)
                    } else {
                        Action::Stage(path)
                    }
                } else {
                    Action::Nothing
                }
            },
            None => Action::Nothing,
        }
    }

    /// Discard the selected change.
    pub fn discard_selected_change(&self) -> (r: Action)
        ensures
            r == self.discard_action(),
    {
        match self.selected_change {
            Some(idx) => {
                if idx < self.repo_status.changes.len() {
                    Action::Discard(self.repo_status.changes[idx].path.clone())
                } else {
                    Action::Nothing
                }
            },
            None => Action::Nothing,
        }
    }

    /// Keys of the branch panel.
    pub fn handle_branch_region_keys(&mut self, code: KeyCode, now: u64) -> (r: Action)
        requires
            old(self).wf(),
        ensures
            code == KeyCode::Up ==> final(self).selected_branch.hovered == branch_step_up(
                &old(self).selected_branch,
            ),
            code == KeyCode::Down ==> final(self).selected_branch.hovered == branch_step_down(
                &old(self).selected_branch,
            ),
            code != KeyCode::Up && code != KeyCode::Down ==> final(self).selected_branch
                == old(self).selected_branch,
            code == KeyCode::Char('a') ==> (final(self).branch_input matches Some(b) && b.value@.len() == 0
                && b.cursor == 0 && b.error is None),
            code != KeyCode::Char('a') ==> final(self).branch_input == old(self).branch_input,
            final(self).popup_region == old(self).popup_region,
            final(self).commit_message_editing == old(self).commit_message_editing,
            final(self).commit_input == old(self).commit_input,
            final(self).wf(),
            final(self).selected_branch.branches@ == old(self).selected_branch.branches@,
            final(self).selected_branch.current == old(self).selected_branch.current,
            final(self).commits == old(self).commits,
            final(self).repo_status == old(self).repo_status,
            final(self).selected_change == old(self).selected_change,
            final(self).selected_region == old(self).selected_region,
            final(self).exit == old(self).exit,
            final(self).show_changes_popup == old(self).show_changes_popup,
            r == old(self).branch_key_action(code),
            code == KeyCode::Char('a') ==> final(self).branch_input is Some,
            code == KeyCode::Up || code == KeyCode::Down ==> final(self).notification
                == old(self).notification,
            code == KeyCode::Char('u') ==> r == Action::FetchRemotes,
            code == KeyCode::Enter ==> r == old(self).checkout_action(),
            code == KeyCode::Enter && old(self).checkout_action() == Action::Nothing && old(
                self,
            ).hovered_branch_is_remote() ==> notice_is(final(self), "Missing remote reference"@, now),
            code == KeyCode::Delete || code == KeyCode::Char('x') ==> r == old(self).delete_action()
                && (old(self).delete_refusal() matches Some(m) ==> notice_is(final(self), m, now)),
            code == KeyCode::Char('p') ==> (match old(self).selected_branch.current {
                Some(c) => r == Action::PushCurrent(c),
                None => r == Action::Nothing && notice_is(final(self), "No current branch to push"@, now),
            }),
    {
        match code {
            KeyCode::Char('a') => {
                self.start_branch_input();
                Action::Nothing
            },
            KeyCode::Up => {
                move_hover_up(&mut self.selected_branch);
                Action::Nothing
            },
            KeyCode::Down => {
                move_hover_down(&mut self.selected_branch);
                Action::Nothing
            },
            KeyCode::Enter => self.checkout_hovered(now),
            KeyCode::Delete | KeyCode::Char('x') => self.delete_hovered(now),
            KeyCode::Char('u') => Action::FetchRemotes,
            KeyCode::Char('p') => self.push_current_branch(now),
            _ => Action::Nothing,
        }
    }

    /// What a key of the branch panel asks the caller to run.
    pub open spec fn branch_key_action(&self, code: KeyCode) -> Action {
        match code {
            KeyCode::Enter => self.checkout_action(),
            KeyCode::Delete => self.delete_action(),
            KeyCode::Char('x') => self.delete_action(),
            KeyCode::Char('u') => Action::FetchRemotes,
            KeyCode::Char('p') => match self.selected_branch.current {
                Some(c) => Action::PushCurrent(c),
                None => Action::Nothing,
            },
            _ => Action::Nothing,
        }
    }

    /// The hovered branch is a remote one.
    pub open spec fn hovered_branch_is_remote(&self) -> bool {
        self.selected_branch.hovered matches Some(i) && i < self.selected_branch.branches@.len()
            && self.selected_branch.branches@[i as int].is_remote
    }

    /// What checking out the hovered branch asks for.
    pub open spec fn checkout_action(&self) -> Action {
        match self.selected_branch.hovered {
            Some(i) => if i < self.selected_branch.branches@.len() {
                let b = self.selected_branch.branches@[i as int];
                if b.is_remote {
                    match b.remote_ref {
                        Some(r) => Action::CheckoutRemote(r),
                        None => Action::Nothing,
                    }
                } else {
                    Action::Checkout(b.name)
                }
            } else {
                Action::Nothing
            },
            None => Action::Nothing,
        }
    }

    /// Why the hovered branch may not be deleted, if it may not.
    pub open spec fn delete_refusal(&self) -> Option<Seq<char>> {
        match self.selected_branch.hovered {
            Some(i) => if i < self.selected_branch.branches@.len() {
                let b = self.selected_branch.branches@[i as int];
                if b.is_remote {
                    Some("Cannot delete remote branches"@)
                } else if self.selected_branch.current matches Some(c) && c@ == b.name@ {
                    Some("Cannot delete the current branch"@)
                } else {
                    None
                }
            } else {
                None
            },
            None => None,
        }
    }

    /// What deleting the hovered branch asks for.
    pub open spec fn delete_action(&self) -> Action {
        match self.selected_branch.hovered {
            Some(i) => if i < self.selected_branch.branches@.len() && self.delete_refusal() is None {
                Action::DeleteBranch(self.selected_branch.branches@[i as int].name)
            } else {
                Action::Nothing
            },
            None => Action::Nothing,
        }
    }

    /// Checks out the hovered branch (by its remote reference for a remote branch).
    fn checkout_hovered(&mut self, now: u64) -> (r: Action)
        requires
            old(self).wf(),
        ensures
            final(self).wf(),
            r == old(self).checkout_action(),
            r == Action::Nothing && old(self).hovered_branch_is_remote() ==> notice_is(
                final(self),
                "Missing remote reference"@,
                now,
            ),
            same_models(final(self), old(self)),
            same_focus(old(self), final(self)),
            final(self).selected_change == old(self).selected_change,
    {
        if let Some(index) = self.selected_branch.hovered {
            if index < self.selected_branch.branches.len() {
                let branch = &self.selected_branch.branches[index];
                if branch.is_remote {
                    match &branch.remote_ref {
                        Some(remote_ref) => return Action::CheckoutRemote(remote_ref.clone()),
                        None => {
                            self.show_notification(to_owned_string("Missing remote reference"), now);
                            return Action::Nothing;
                        },
                    }
                } else {
                    return Action::Checkout(branch.name.clone());
                }
            }
        }
        Action::Nothing
    }

    /// Deletes the hovered branch, refusing remote branches and the current one.
    fn delete_hovered(&mut self, now: u64) -> (r: Action)
        requires
            old(self).wf(),
        ensures
            final(self).wf(),
            r == old(self).delete_action(),
            old(self).delete_refusal() matches Some(m) ==> notice_is(final(self), m, now),
            same_models(final(self), old(self)),
            same_focus(old(self), final(self)),
            final(self).selected_change == old(self).selected_change,
    {
        if let Some(index) = self.selected_branch.hovered {
            if index < self.selected_branch.branches.len() {
                let branch = &self.selected_branch.branches[index];
                if branch.is_remote {
                    self.show_notification(to_owned_string("Cannot delete remote branches"), now);
                    return Action::Nothing;
                }
                let is_current = match &self.selected_branch.current {
                    Some(c) => str_eq(c.as_str(), branch.name.as_str()),
                    None => false,
                };
                if is_current {
                    self.show_notification(to_owned_string("Cannot delete the current branch"), now);
                    return Action::Nothing;
                }
                return Action::DeleteBranch(branch.name.clone());
            }
        }
        Action::Nothing
    }

    /// Pushes the current branch, if there is one.
    fn push_current_branch(&mut self, now: u64) -> (r: Action)
        requires
            old(self).wf(),
        ensures
            final(self).wf(),
            match old(self).selected_branch.current {
                Some(c) => r == Action::PushCurrent(c),
                None => r == Action::Nothing && notice_is(final(self), "No current branch to push"@, now),
            },
            same_models(final(self), old(self)),
            same_focus(old(self), final(self)),
            final(self).selected_change == old(self).selected_change,
    {
        match &self.selected_branch.current {
            Some(c) => Action::PushCurrent(c.clone()),
            None => {
                self.show_notification(to_owned_string("No current branch to push"), now);
                Action::Nothing
            },
        }
    }

    /// Keys of the commit panel: move the hover, wrapping.
    pub fn handle_commits_region_keys(&mut self, code: KeyCode)
        requires
            old(self).wf(),
        ensures
            final(self).commits.status == old(self).commits.status,
            code == KeyCode::Up ==> final(self).commits.hovered == step_up(
                old(self).commits.commits@.len(),
                old(self).commits.hovered,
            ),
            code == KeyCode::Down ==> final(self).commits.hovered == step_down(
                old(self).commits.commits@.len(),
                old(self).commits.hovered,
            ),
            hovered_id_synced(final(self)),
            final(self).notification == old(self).notification,
            final(self).wf(),
            final(self).commits.commits@ == old(self).commits.commits@,
            final(self).selected_branch == old(self).selected_branch,
            final(self).repo_status == old(self).repo_status,
            final(self).selected_change == old(self).selected_change,
            same_focus(old(self), final(self)),
            code != KeyCode::Up && code != KeyCode::Down ==> final(self).commits == old(self).commits,
    {
        match code {
            KeyCode::Up => self.commits.move_hover_up(),
            KeyCode::Down => self.commits.move_hover_down(),
            _ => {},
        }
        self.sync_hovered_commit_id();
    }
}

/// Focus is unchanged apart from the branch-name field.
pub open spec fn same_focus_but_branch_input(a: &App, b: &App) -> bool {
    &&& a.selected_region == b.selected_region
    &&& a.exit == b.exit
    &&& a.show_changes_popup == b.show_changes_popup
    &&& a.popup_region == b.popup_region
    &&& a.commit_message_editing == b.commit_message_editing
    &&& a.refresh_interval == b.refresh_interval
    &&& a.commit_input == b.commit_input
}

/// The notice for a failed action, if it gets one.
pub open spec fn failure_text(action: Action, err: Seq<char>) -> Option<Seq<char>> {
    match action {
        Action::Nothing => None,
        Action::Checkout(_) => Some("Checkout failed: "@ + err),
        Action::CheckoutRemote(_) => Some("Checkout failed: "@ + err),
        Action::DeleteBranch(_) => Some("Delete failed: "@ + err),
        Action::FetchRemotes => Some(err),
        Action::PullCurrent(c) => Some("Update "@ + c@ + " failed: "@ + err),
        Action::PushCurrent(c) => Some("Push "@ + c@ + " failed: "@ + err),
        Action::CreateBranch(_) => Some(err),
        Action::Stage(_) => Some(err),
        Action::Unstage(_) => Some(err),
        Action::Discard(_) => Some(err),
        Action::Commit(_) => Some(err),
    }
}

/// The action changes branches (and is followed by a branch refresh on success).
pub open spec fn is_branch_action(action: Action) -> bool {
    match action {
        Action::Checkout(_) | Action::CheckoutRemote(_) | Action::DeleteBranch(_)
        | Action::FetchRemotes | Action::PullCurrent(_) | Action::PushCurrent(_)
        | Action::CreateBranch(_) => true,
        _ => false,
    }
}

proof fn lemma_reselect_after_clamp(
    cs: Seq<crate::git::FileChange>,
    prev: Option<usize>,
    preferred: Option<Seq<char>>,
)
    requires
        cs.len() <= usize::MAX,
    ensures
        spec_reselect(cs, spec_reselect(cs, prev, None), preferred) == spec_reselect(cs, prev, preferred),
{
}

impl App {
    /// Applies the outcome of an action run by the caller: on failure the
    /// view-models stay as they were and the error is shown; on success the
    /// snapshot replaces the affected models and the selection is reconciled.
    /// Returns a follow-up action (a pull after a successful fetch), or nothing.
    pub fn complete(&mut self, action: Action, result: Result<Snapshot, String>, now: u64) -> (r: Action)
        requires
            old(self).wf(),
        ensures
            final(self).wf(),
            final(self).selected_region == old(self).selected_region,
            final(self).exit == old(self).exit,
            final(self).show_changes_popup == old(self).show_changes_popup,
            result is Err ==> same_models(final(self), old(self)) && final(self).selected_change
                == old(self).selected_change && r == Action::Nothing,
            result matches Err(e) ==> (match failure_text(action, e@) {
                Some(text) => notice_is(final(self), text, now),
                None => final(self).notification == old(self).notification,
            }),
            result is Err ==> final(self).branch_input == old(self).branch_input,
            result matches Ok(snap) ==> (is_branch_action(action) ==> (final(self).selected_branch.branches@
                == snap.branches.branches@ && final(self).selected_branch.current
                == snap.branches.current && final(self).selected_branch.hovered == spec_branch_hover(
                &snap.branches,
                old(self).selected_branch.hovered,
            ) && final(self).repo_status == old(self).repo_status)),
            result matches Ok(snap) ==> ((action is Checkout || action is CheckoutRemote) ==> (final(self).selected_branch.selected == snap.branches.current && r == Action::Nothing
                && (snap.branches.current matches Some(c) ==> notice_is(
                final(self),
                "Switched to "@ + c@,
                now,
            )))),
            result matches Ok(snap) ==> (action matches Action::DeleteBranch(name) ==> (final(self).selected_branch.selected == kept_selection(
                snap.branches.branches@,
                old(self).selected_branch.selected,
            ) && r == Action::Nothing && notice_is(final(self), "Deleted "@ + name@, now))),
            result matches Ok(snap) ==> (action is FetchRemotes ==> ((match snap.branches.current {
                Some(c) => r == Action::PullCurrent(c),
                None => r == Action::Nothing && notice_is(final(self), "Fetched remote branches"@, now),
            }))),
            result matches Ok(snap) ==> ((action is PullCurrent || action is PushCurrent) ==> (r
                == Action::Nothing && (snap.branches.current matches Some(c) ==> notice_is(
                final(self),
                "Updated "@ + c@,
                now,
            )))),
            result matches Ok(snap) ==> (action matches Action::CreateBranch(name) ==> (final(self).selected_branch.selected == kept_selection(
                snap.branches.branches@,
                Some(name),
            ) && final(self).branch_input is None && r == Action::Nothing)),
            result matches Ok(snap) ==> (action matches Action::Stage(path) ==> (final(self).repo_status
                == snap.status && final(self).selected_change == spec_reselect(
                snap.status.changes@,
                old(self).selected_change,
                Some(path@),
            ) && final(self).selected_branch == old(self).selected_branch && r == Action::Nothing)),
            result matches Ok(snap) ==> (action matches Action::Unstage(path) ==> (final(self).repo_status
                == snap.status && final(self).selected_change == spec_reselect(
                snap.status.changes@,
                old(self).selected_change,
                Some(path@),
            ) && final(self).selected_branch == old(self).selected_branch && r == Action::Nothing)),
            result matches Ok(snap) ==> (action is Discard ==> (final(self).repo_status == snap.status
                && final(self).selected_change == spec_reselect(
                snap.status.changes@,
                old(self).selected_change,
                None,
            ) && final(self).selected_branch == old(self).selected_branch && r == Action::Nothing)),
            result matches Ok(snap) ==> (action matches Action::Commit(msg) ==> (final(self).repo_status
                == snap.status && final(self).commit_input.value@.len() == 0
                && !final(self).commit_message_editing && r == Action::Nothing && notice_is(
                final(self),
                "Committed: "@ + msg@,
                now,
            ))),
    {
        match result {
            Err(err) => {
                match action {
                    Action::Nothing => {},
                    Action::Checkout(_) | Action::CheckoutRemote(_) => {
                        self.show_notification(concat2("Checkout failed: ", err.as_str()), now);
                    },
                    Action::DeleteBranch(_) => {
                        self.show_notification(concat2("Delete failed: ", err.as_str()), now);
                    },
                    Action::PullCurrent(current) => {
                        let head = concat3("Update ", current.as_str(), " failed: ");
                        self.show_notification(concat2(head.as_str(), err.as_str()), now);
                    },
                    Action::PushCurrent(current) => {
                        let head = concat3("Push ", current.as_str(), " failed: ");
                        self.show_notification(concat2(head.as_str(), err.as_str()), now);
                    },
                    Action::FetchRemotes | Action::CreateBranch(_) | Action::Stage(_) | Action::Unstage(_)
                    | Action::Discard(_) | Action::Commit(_) => {
                        self.show_notification(err, now);
                    },
                }
                Action::Nothing
            },
            Ok(snap) => {
                match action {
                    Action::Nothing => Action::Nothing,
                    Action::Checkout(_) | Action::CheckoutRemote(_) => {
                        self.refresh_branches(snap.branches, snap.commits);
                        let current = match &self.selected_branch.current {
                            Some(c) => Some(c.clone()),
                            None => None,
                        };
                        self.selected_branch.selected = current;
                        match &self.selected_branch.current {
                            Some(c) => {
                                let text = concat2("Switched to ", c.as_str());
                                self.show_notification(text, now);
                            },
                            None => {},
                        }
                        Action::Nothing
                    },
                    Action::DeleteBranch(name) => {
                        self.refresh_branches(snap.branches, snap.commits);
                        self.show_notification(concat2("Deleted ", name.as_str()), now);
                        Action::Nothing
                    },
                    Action::FetchRemotes => {
                        self.refresh_branches(snap.branches, snap.commits);
                        match &self.selected_branch.current {
                            Some(c) => Action::PullCurrent(c.clone()),
                            None => {
                                self.show_notification(to_owned_string("Fetched remote branches"), now);
                                Action::Nothing
                            },
                        }
                    },
                    Action::PullCurrent(_) | Action::PushCurrent(_) => {
                        self.refresh_branches(snap.branches, snap.commits);
                        match &self.selected_branch.current {
                            Some(c) => {
                                let text = concat2("Updated ", c.as_str());
                                self.show_notification(text, now);
                            },
                            None => {},
                        }
                        Action::Nothing
                    },
                    Action::CreateBranch(name) => {
                        self.selected_branch.selected = Some(name);
                        self.refresh_branches(snap.branches, snap.commits);
                        self.branch_input = None;
                        Action::Nothing
                    },
                    Action::Stage(path) | Action::Unstage(path) => {
                        let _count = snap.status.changes.len();
                        proof {
                            lemma_reselect_after_clamp(snap.status.changes@, self.selected_change, Some(path@));
                        }
                        self.refresh_status(snap.status);
                        self.reselect_change(Some(path));
                        Action::Nothing
                    },
                    Action::Discard(_) => {
                        self.refresh_status(snap.status);
                        Action::Nothing
                    },
                    Action::Commit(message) => {
                        self.commit_input = TextInput::default();
                        proof {
                            self.commit_input.lemma_empty_wf();
                        }
                        self.refresh_status(snap.status);
                        self.refresh_commits(snap.commits);
                        self.show_notification(concat2("Committed: ", message.as_str()), now);
                        self.commit_message_editing = false;
                        Action::Nothing
                    },
                }
            },
        }
    }
}

} // verus!
