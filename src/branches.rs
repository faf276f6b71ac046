//! The branch panel: hover movement and reconciliation after a refresh.
use vstd::prelude::*;
use crate::commits::{step_down, step_up};
use crate::git::{BranchInfo, BranchSummary};
use crate::format::{
    dec_str, push_decimal, push_str, spaces, spec_truncate, truncate_with_ellipsis, visible_width,
};
use crate::regions::{region_label, Region};
use crate::text::{position_of, push_char, str_eq};

verus! {

/// The names of the branches, in order.
pub open spec fn branch_names(bs: Seq<BranchSummary>) -> Seq<Seq<char>> {
    bs.map_values(|b: BranchSummary| b.name@)
}

/// Where the hover goes in `info`: the explicit previous index when it is still in
/// range, else the checked-out branch, else the first row; nothing for an empty list.
pub open spec fn spec_branch_hover(info: &BranchInfo, previous: Option<usize>) -> Option<usize> {
    let n = info.branches@.len();
    if n == 0 {
        None
    } else if previous is Some && previous->0 < n {
        previous
    } else {
        match info.current {
            Some(name) => match position_of(branch_names(info.branches@), name@) {
                Some(i) => Some(i as usize),
                None => Some(0),
            },
            None => Some(0),
        }
    }
}

/// The sticky selection survives only while a branch of that name exists.
pub open spec fn kept_selection(bs: Seq<BranchSummary>, selected: Option<String>) -> Option<String> {
    match selected {
        Some(name) => if branch_names(bs).contains(name@) {
            Some(name)
        } else {
            None
        },
        None => None,
    }
}

/// Index of the first branch named `name`.
pub fn find_branch(bs: &Vec<BranchSummary>, name: &str) -> (r: Option<usize>)
    ensures
        r matches Some(i) ==> position_of(branch_names(bs@), name@) == Some(i as int),
        r is None ==> position_of(branch_names(bs@), name@) is None,
{
    let ghost names = branch_names(bs@);
    let mut i: usize = 0;
    proof {
        assert(names.take(0) =~= Seq::<Seq<char>>::empty());
    }
    while i < bs.len()
        invariant
            i <= bs@.len(),
            names == branch_names(bs@),
            position_of(names.take(i as int), name@) is None,
        decreases bs@.len() - i,
    {
        proof {
            assert(names.take(i + 1).drop_last() =~= names.take(i as int));
        }
        if str_eq(bs[i].name.as_str(), name) {
            proof {
                crate::text::lemma_position_prefix(names, name@, i + 1);
            }
            return Some(i);
        }
        i = i + 1;
    }
    proof {
        assert(names.take(i as int) =~= names);
    }
    None
}

/// Picks the hovered row for freshly fetched branches.
pub fn preferred_hover_index(info: &BranchInfo, previous: Option<usize>) -> (r: Option<usize>)
    ensures
        r == spec_branch_hover(info, previous),
        r matches Some(i) ==> i < info.branches@.len(),
{
    let n = info.branches.len();
    if n == 0 {
        return None;
    }
    if let Some(p) = previous {
        if p < n {
            return Some(p);
        }
    }
    if let Some(name) = &info.current {
        if let Some(i) = find_branch(&info.branches, name.as_str()) {
            proof {
                crate::text::lemma_position_bound(branch_names(info.branches@), name@);
            }
            return Some(i);
        }
    }
    Some(0)
}

/// Whether a branch named `name` exists.
fn has_branch(bs: &Vec<BranchSummary>, name: &String) -> (r: bool)
    ensures
        r == branch_names(bs@).contains(name@),
{
    let found = find_branch(bs, name.as_str());
    proof {
        crate::text::lemma_position_contains(branch_names(bs@), name@);
    }
    found.is_some()
}

/// The fetched branches, with the hover reconciled against the previous model and
/// the sticky selection kept only if that branch still exists.
pub fn refresh(prev: BranchInfo, fetched: BranchInfo) -> (r: BranchInfo)
    ensures
        r.branches@ == fetched.branches@,
        r.current == fetched.current,
        r.status == fetched.status,
        r.hovered == spec_branch_hover(&fetched, prev.hovered),
        r.selected == kept_selection(fetched.branches@, prev.selected),
        r.hovered matches Some(i) ==> i < r.branches@.len(),
{
    let mut current = fetched;
    current.hovered = preferred_hover_index(&current, prev.hovered);
    current.selected = match prev.selected {
        Some(name) => {
            if has_branch(&current.branches, &name) {
                Some(name)
            } else {
                None
            }
        },
        None => None,
    };
    current
}

/// Hover one row up, wrapping to the bottom; the first row when nothing is hovered.
pub fn move_hover_up(info: &mut BranchInfo)
    requires
        old(info).hovered matches Some(i) ==> i < old(info).branches@.len(),
    ensures
        final(info).hovered == (if old(info).branches@.len() == 0 {
            old(info).hovered
        } else {
            step_up(old(info).branches@.len(), old(info).hovered)
        }),
        final(info).branches@ == old(info).branches@,
        final(info).current == old(info).current,
        final(info).status == old(info).status,
        final(info).selected == old(info).selected,
        final(info).hovered == (if old(info).branches@.len() == 0 {
            old(info).hovered
        } else {
            match old(info).hovered {
                Some(i) => Some(
                    (if i == 0 {
                        (old(info).branches@.len() - 1) as usize
                    } else {
                        (i - 1) as usize
                    }),
                ),
                None => Some(0usize),
            }
        }),
{
    let len = info.branches.len();
    if len == 0 {
        return;
    }
    info.hovered = match info.hovered {
        Some(i) => Some(
            if i == 0 {
                len - 1
            } else {
                i - 1
            },
        ),
        None => Some(0),
    };
}

/// Hover one row down, wrapping to the top; the first row when nothing is hovered.
pub fn move_hover_down(info: &mut BranchInfo)
    requires
        old(info).hovered matches Some(i) ==> i < old(info).branches@.len(),
    ensures
        final(info).hovered == (if old(info).branches@.len() == 0 {
            old(info).hovered
        } else {
            step_down(old(info).branches@.len(), old(info).hovered)
        }),
        final(info).branches@ == old(info).branches@,
        final(info).current == old(info).current,
        final(info).status == old(info).status,
        final(info).selected == old(info).selected,
        final(info).hovered == (if old(info).branches@.len() == 0 {
            old(info).hovered
        } else {
            match old(info).hovered {
                Some(i) => Some(
                    (if i + 1 == old(info).branches@.len() {
                        0
                    } else {
                        i + 1
                    }) as usize,
                ),
                None => Some(0usize),
            }
        }),
{
    let len = info.branches.len();
    if len == 0 {
        return;
    }
    info.hovered = match info.hovered {
        Some(i) => Some(
            if i + 1 == len {
                0
            } else {
                i + 1
            },
        ),
        None => Some(0),
    };
}

/// After a refresh with no usable explicit index, the hover lands on the
/// checked-out branch wherever it now sits; without it, on the first row (or
/// nowhere when the list is empty).
pub proof fn lemma_hover_follows_current(info: &BranchInfo, previous: Option<usize>)
    requires
        previous matches Some(p) ==> p >= info.branches@.len(),
        info.branches@.len() <= usize::MAX,
    ensures
        info.current matches Some(name) ==> (
        branch_names(info.branches@).contains(name@) ==> (spec_branch_hover(info, previous) matches Some(i)
            && info.branches@[i as int].name@ == name@)),
        (info.current matches Some(name) ==> !branch_names(info.branches@).contains(name@)) ==> (
        spec_branch_hover(info, previous) == (if info.branches@.len() == 0 {
            None
        } else {
            Some(0usize)
        })),
{
    if let Some(name) = info.current {
        crate::text::lemma_position_contains(branch_names(info.branches@), name@);
        crate::text::lemma_position_bound(branch_names(info.branches@), name@);
        if let Some(i) = position_of(branch_names(info.branches@), name@) {
            assert(branch_names(info.branches@)[i] == info.branches@[i].name@);
        }
    }
}

/// The ahead/behind indicator of a branch, missing counts shown as zero.
pub open spec fn spec_indicator(b: BranchSummary) -> Seq<char> {
    let ahead = match b.ahead {
        Some(n) => n as nat,
        None => 0,
    };
    let behind = match b.behind {
        Some(n) => n as nat,
        None => 0,
    };
    "↑"@ + dec_str(ahead) + " ↓"@ + dec_str(behind)
}

/// Formats `↑<ahead> ↓<behind>`.
pub fn format_indicator(branch: &BranchSummary) -> (r: String)
    ensures
        r@ == spec_indicator(*branch),
{
    let ahead = match branch.ahead {
        Some(n) => n,
        None => 0,
    };
    let behind = match branch.behind {
        Some(n) => n,
        None => 0,
    };
    let mut out = String::new();
    push_str(&mut out, "↑");
    push_decimal(&mut out, ahead);
    push_str(&mut out, " ↓");
    push_decimal(&mut out, behind);
    assert(out@ =~= spec_indicator(*branch));
    out
}

/// One displayed row of the branch list.
pub struct BranchRow {
    pub text: String,
    pub is_current: bool,
    pub is_hovered: bool,
    pub is_selected: bool,
}

/// The text of row `index` at `width` columns: hover and current markers, the
/// name cut to the room left by the indicator, padding, then the indicator.
pub open spec fn spec_branch_row(info: &BranchInfo, index: int, width: nat) -> Seq<char> {
    let b = info.branches@[index];
    let prefix = seq![
        if info.hovered == Some(index as usize) {
            '>'
        } else {
            ' '
        },
        if info.current matches Some(c) && c@ == b.name@ {
            '*'
        } else {
            ' '
        },
    ];
    let indicator = spec_indicator(b);
    let room: int = width - (2 + indicator.len() + 2);
    let avail: nat = if room > 0 {
        room as nat
    } else {
        0
    };
    let name = spec_truncate(b.name@, avail);
    let padding = if name.len() < avail {
        spaces((avail - name.len()) as nat)
    } else {
        Seq::empty()
    };
    prefix + " "@ + name + padding + (if indicator.len() > 0 && width > 3 {
        " "@ + indicator
    } else {
        Seq::empty()
    })
}

/// The branch list of one panel.
pub struct BranchList<'a> {
    pub info: &'a BranchInfo,
}

impl<'a> BranchList<'a> {
    pub fn new(info: &'a BranchInfo) -> (r: Self)
        ensures
            r.info == info,
    {
        BranchList { info }
    }

    /// Row `index`, laid out for `width` columns.
    #[verifier::rlimit(40)]
    pub fn row(&self, index: usize, width: usize) -> (r: BranchRow)
        requires
            index < self.info.branches@.len(),
        ensures
            r.text@ == spec_branch_row(self.info, index as int, width as nat),
            r.is_hovered == (self.info.hovered == Some(index)),
            r.is_current == (self.info.current matches Some(c) && c@ == self.info.branches@[index as int].name@),
            r.is_selected == (self.info.selected matches Some(c) && c@ == self.info.branches@[index as int].name@),
    {
        let branch = &self.info.branches[index];
        let is_current = match &self.info.current {
            Some(c) => str_eq(c.as_str(), branch.name.as_str()),
            None => false,
        };
        let is_selected = match &self.info.selected {
            Some(c) => str_eq(c.as_str(), branch.name.as_str()),
            None => false,
        };
        let is_hovered = match self.info.hovered {
            Some(h) => h == index,
            None => false,
        };
        let indicator = format_indicator(branch);
        let indicator_len = visible_width(indicator.as_str());
        let avail = if width > indicator_len && width - indicator_len > 4 {
            width - indicator_len - 4
        } else {
            0
        };
        let name = truncate_with_ellipsis(branch.name.as_str(), avail);
        let name_len = visible_width(name.as_str());
        let mut text = String::new();
        push_char(&mut text, if is_hovered { '>' } else { ' ' });
        push_char(&mut text, if is_current { '*' } else { ' ' });
        push_str(&mut text, " ");
        push_str(&mut text, name.as_str());
        let ghost before_pad = text@;
        let mut k = name_len;
        while k < avail
            invariant
                name_len <= k <= avail || (name_len >= avail && k == name_len),
                text@ == before_pad + spaces((k - name_len) as nat),
            decreases avail - k,
        {
            push_char(&mut text, ' ');
            k = k + 1;
            assert(text@ =~= before_pad + spaces((k - name_len) as nat));
        }
        if indicator_len > 0 && width > 3 {
            push_str(&mut text, " ");
            push_str(&mut text, indicator.as_str());
        }
        proof {
            let ghost want = spec_branch_row(self.info, index as int, width as nat);
            if name_len >= avail {
                assert(before_pad + spaces(0) =~= before_pad);
            }
            assert(text@ =~= want);
        }
        BranchRow { text, is_current, is_hovered, is_selected }
    }
}

/// The branch panel: its model and whether it has focus.
pub struct BranchPanel<'a> {
    pub info: &'a BranchInfo,
    pub selected: bool,
}

/// The branch panel for `info`.
pub fn panel(selected: bool, info: &BranchInfo) -> (r: BranchPanel<'_>)
    ensures
        r.info == info,
        r.selected == selected,
{
    BranchPanel { info, selected }
}

impl<'a> BranchPanel<'a> {
    /// The title: the region label, with `(row/total)` when the list is taller
    /// than the `inner_height` lines available.
    pub fn title(&self, inner_height: u16) -> (r: String)
        requires
            self.info.hovered matches Some(h) ==> h < self.info.branches@.len(),
        ensures
            r@ == (match self.info.hovered {
                Some(h) => if self.info.branches@.len() > inner_height as nat {
                    region_label(Region::Branches) + " ("@ + dec_str(h as nat + 1) + "/"@ + dec_str(
                        self.info.branches@.len(),
                    ) + ")"@
                } else {
                    region_label(Region::Branches)
                },
                None => region_label(Region::Branches),
            }),
    {
        let mut out = String::new();
        push_str(&mut out, Region::Branches.as_str());
        let len = self.info.branches.len();
        match self.info.hovered {
            Some(h) => {
                if len > inner_height as usize {
                    push_str(&mut out, " (");
                    push_decimal(&mut out, h + 1);
                    push_str(&mut out, "/");
                    push_decimal(&mut out, len);
                    push_str(&mut out, ")");
                }
            },
            None => {},
        }
        assert(out@ =~= (match self.info.hovered {
            Some(h) => if self.info.branches@.len() > inner_height as nat {
                region_label(Region::Branches) + " ("@ + dec_str(h as nat + 1) + "/"@ + dec_str(
                    self.info.branches@.len(),
                ) + ")"@
            } else {
                region_label(Region::Branches)
            },
            None => region_label(Region::Branches),
        }));
        out
    }
}

} // verus!
