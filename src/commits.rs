//! The commit panel: hover movement and reconciliation after a refresh.
use vstd::prelude::*;
use crate::format::{format_branch_label, join, pad_branch, spec_pad_branch, string_views};
use crate::git::Commit;
use crate::text::{lemma_position_bound, lemma_position_contains, lemma_position_prefix, position_of, str_eq};

verus! {

/// The ids of the commits, in order.
pub open spec fn commit_ids(cs: Seq<Commit>) -> Seq<Seq<char>> {
    cs.map_values(|c: Commit| c.id@)
}

/// Where the hover goes among fresh commits: the previously hovered commit when it
/// is still listed, else the first row; nothing for an empty list.
pub open spec fn spec_commit_hover(cs: Seq<Commit>, previous_id: Option<Seq<char>>) -> Option<usize> {
    if cs.len() == 0 {
        None
    } else {
        match previous_id {
            Some(id) => match position_of(commit_ids(cs), id) {
                Some(i) => Some(i as usize),
                None => Some(0),
            },
            None => Some(0),
        }
    }
}

/// The view of an optional borrowed id.
pub open spec fn opt_str_view(s: Option<&str>) -> Option<Seq<char>> {
    match s {
        Some(x) => Some(x@),
        None => None,
    }
}

/// Picks the hovered row for freshly fetched commits.
pub fn preferred_hover_index(commits: &[Commit], previous_id: Option<&str>) -> (r: Option<usize>)
    ensures
        r == spec_commit_hover(commits@, opt_str_view(previous_id)),
        r matches Some(i) ==> i < commits@.len(),
{
    if commits.len() == 0 {
        return None;
    }
    if let Some(id) = previous_id {
        let ghost ids = commit_ids(commits@);
        let mut i: usize = 0;
        proof {
            assert(ids.take(0) =~= Seq::<Seq<char>>::empty());
        }
        while i < commits.len()
            invariant
                i <= commits@.len(),
                ids == commit_ids(commits@),
                previous_id == Some(id),
                position_of(ids.take(i as int), id@) is None,
            decreases commits@.len() - i,
        {
            proof {
                assert(ids.take(i + 1).drop_last() =~= ids.take(i as int));
            }
            if str_eq(commits[i].id.as_str(), id) {
                proof {
                    assert(ids[i as int] == commits@[i as int].id@);
                    lemma_position_prefix(ids, id@, i + 1);
                }
                return Some(i);
            }
            i = i + 1;
        }
        proof {
            assert(ids.take(i as int) =~= ids);
        }
    }
    Some(0)
}

/// Hovering a commit and refreshing keeps the hover on that commit wherever it
/// now sits; when it is gone the hover resets to the first row.
pub proof fn lemma_hover_follows_commit(cs: Seq<Commit>, id: Seq<char>)
    requires
        cs.len() <= usize::MAX,
    ensures
        commit_ids(cs).contains(id) ==> (spec_commit_hover(cs, Some(id)) matches Some(i) && cs[i as int].id@
            == id),
        !commit_ids(cs).contains(id) ==> spec_commit_hover(cs, Some(id)) == (if cs.len() == 0 {
            None
        } else {
            Some(0usize)
        }),
{
    lemma_position_contains(commit_ids(cs), id);
    lemma_position_bound(commit_ids(cs), id);
    if let Some(i) = position_of(commit_ids(cs), id) {
        assert(commit_ids(cs)[i] == cs[i].id@);
    }
}

/// The hover after one step up in a list of `len` rows, wrapping to the bottom:
/// nothing for an empty list, the first row when nothing was hovered.
pub open spec fn step_up(len: nat, hovered: Option<usize>) -> Option<usize> {
    if len == 0 {
        None
    } else {
        match hovered {
            Some(i) => Some(
                (if i == 0 {
                    len - 1
                } else {
                    i - 1
                }) as usize,
            ),
            None => Some(0usize),
        }
    }
}

/// The hover after one step down in a list of `len` rows, wrapping to the top:
/// nothing for an empty list, the first row when nothing was hovered.
pub open spec fn step_down(len: nat, hovered: Option<usize>) -> Option<usize> {
    if len == 0 {
        None
    } else {
        match hovered {
            Some(i) => Some(
                (if i + 1 == len {
                    0
                } else {
                    i + 1
                }) as usize,
            ),
            None => Some(0usize),
        }
    }
}

/// The commit panel's model: the log, a fetch error and the hovered row.
#[derive(Debug)]
pub struct CommitsState {
    pub commits: Vec<Commit>,
    pub status: Option<String>,
    pub hovered: Option<usize>,
}

impl Default for CommitsState {
    fn default() -> (r: CommitsState)
        ensures
            r.commits@.len() == 0,
            r.status is None,
            r.hovered is None,
    {
        CommitsState { commits: Vec::new(), status: None, hovered: None }
    }
}

impl CommitsState {
    /// The hovered row, if any, is a listed commit.
    pub open spec fn wf(&self) -> bool {
        self.hovered matches Some(i) ==> i < self.commits@.len()
    }

    /// The state for a freshly fetched log: the hover follows the previously
    /// hovered id; a fetch error leaves an empty list with the error.
    pub fn refresh(previous_hovered_id: Option<&str>, fetched: Result<Vec<Commit>, String>) -> (r: Self)
        ensures
            r.wf(),
            match fetched {
                Ok(cs) => r.commits@ == cs@ && r.status is None && r.hovered == spec_commit_hover(
                    cs@,
                    opt_str_view(previous_hovered_id),
                ),
                Err(e) => r.commits@.len() == 0 && r.status == Some(e) && r.hovered is None,
            },
    {
        match fetched {
            Ok(commits) => {
                let hovered = preferred_hover_index(commits.as_slice(), previous_hovered_id);
                CommitsState { commits, status: None, hovered }
            },
            Err(err) => CommitsState { commits: Vec::new(), status: Some(err), hovered: None },
        }
    }

    /// Hover one row up, wrapping to the bottom; the first row when nothing is hovered.
    pub fn move_hover_up(&mut self)
        requires
            old(self).wf(),
        ensures
            final(self).hovered == step_up(old(self).commits@.len(), old(self).hovered),
            final(self).wf(),
            final(self).commits@ == old(self).commits@,
            final(self).status == old(self).status,
            final(self).hovered == (if old(self).commits@.len() == 0 {
                None
            } else {
                match old(self).hovered {
                    Some(i) => Some(
                        (if i == 0 {
                            (old(self).commits@.len() - 1) as usize
                        } else {
                            (i - 1) as usize
                        }),
                    ),
                    None => Some(0usize),
                }
            }),
    {
        let len = self.commits.len();
        if len == 0 {
            self.hovered = None;
            return;
        }
        self.hovered = match self.hovered {
            Some(i) => Some(
                if i == 0 {
                    len - 1
                } else {
                    i - 1
                },
            ),
            None => Some(0),
        };
    }

    /// Hover one row down, wrapping to the top; the first row when nothing is hovered.
    pub fn move_hover_down(&mut self)
        requires
            old(self).wf(),
        ensures
            final(self).hovered == step_down(old(self).commits@.len(), old(self).hovered),
            final(self).wf(),
            final(self).commits@ == old(self).commits@,
            final(self).status == old(self).status,
            final(self).hovered == (if old(self).commits@.len() == 0 {
                None
            } else {
                match old(self).hovered {
                    Some(i) => Some(
                        (if i + 1 == old(self).commits@.len() {
                            0
                        } else {
                            i + 1
                        }) as usize,
                    ),
                    None => Some(0usize),
                }
            }),
    {
        let len = self.commits.len();
        if len == 0 {
            self.hovered = None;
            return;
        }
        self.hovered = match self.hovered {
            Some(i) => Some(
                if i + 1 == len {
                    0
                } else {
                    i + 1
                },
            ),
            None => Some(0),
        };
    }

    /// The id of the hovered commit.
    pub fn hovered_commit_id(&self) -> (r: Option<&str>)
        ensures
            opt_str_view(r) == (match self.hovered {
                Some(i) => if i < self.commits@.len() {
                    Some(self.commits@[i as int].id@)
                } else {
                    None
                },
                None => None,
            }),
    {
        match self.hovered {
            Some(i) => {
                if i < self.commits.len() {
                    Some(self.commits[i].id.as_str())
                } else {
                    None
                }
            },
            None => None,
        }
    }
}

/// Width of the branch column of the commit list.
pub const BRANCH_COLUMN_WIDTH: usize = 14;

/// One displayed row of the commit list.
pub struct CommitRow {
    pub label: String,
    pub id: String,
    pub summary: String,
    pub is_hovered: bool,
}

/// The commit list of one panel.
pub struct CommitList<'a> {
    pub state: &'a CommitsState,
}

impl<'a> CommitList<'a> {
    pub fn new(state: &'a CommitsState) -> (r: Self)
        ensures
            r.state == state,
    {
        CommitList { state }
    }

    /// Row `index`: the padded branch column, the id, the summary and the hover flag.
    pub fn row(&self, index: usize) -> (r: CommitRow)
        requires
            index < self.state.commits@.len(),
        ensures
            r.label@ == spec_pad_branch(
                (if self.state.commits@[index as int].branches@.len() == 0 {
                    "-"@
                } else {
                    join(string_views(self.state.commits@[index as int].branches@), ","@)
                }),
                BRANCH_COLUMN_WIDTH as nat,
            ),
            r.id == self.state.commits@[index as int].id,
            r.summary == self.state.commits@[index as int].summary,
            r.is_hovered == (self.state.hovered == Some(index)),
    {
        let commit = &self.state.commits[index];
        let label = format_branch_label(commit.branches.as_slice());
        CommitRow {
            label: pad_branch(label.as_str(), BRANCH_COLUMN_WIDTH),
            id: commit.id.clone(),
            summary: commit.summary.clone(),
            is_hovered: match self.state.hovered {
                Some(h) => h == index,
                None => false,
            },
        }
    }
}

} // verus!
