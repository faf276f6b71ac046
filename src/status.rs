//! The status bar: change counts, the summary line and the key hints.
use vstd::prelude::*;
use crate::format::{dec_str, join, push_decimal, push_joined, push_str, string_views, to_owned_string};
use crate::git::{ChangeType, FileChange, RepoStatus};
use crate::regions::{region_hints, str_views, Region};

verus! {

/// The word used for a change type in the summary.
pub open spec fn change_word(c: ChangeType) -> Seq<char> {
    match c {
        ChangeType::Added => "added"@,
        ChangeType::Modified => "modified"@,
        ChangeType::Deleted => "deleted"@,
        ChangeType::Renamed => "renamed"@,
        ChangeType::Copied => "copied"@,
        ChangeType::TypeChange => "type-change"@,
        ChangeType::Untracked => "untracked"@,
        ChangeType::Unmerged => "unmerged"@,
        ChangeType::Unknown => "other"@,
    }
}

/// The word used for a change type in the summary.
pub fn change_label(change: ChangeType) -> (r: &'static str)
    ensures
        r@ == change_word(change),
{
    match change {
        ChangeType::Added => "added",
        ChangeType::Modified => "modified",
        ChangeType::Deleted => "deleted",
        ChangeType::Renamed => "renamed",
        ChangeType::Copied => "copied",
        ChangeType::TypeChange => "type-change",
        ChangeType::Untracked => "untracked",
        ChangeType::Unmerged => "unmerged",
        ChangeType::Unknown => "other",
    }
}

/// The order in which the summary lists change types.
pub open spec fn summary_kinds() -> Seq<ChangeType> {
    seq![
        ChangeType::Added,
        ChangeType::Modified,
        ChangeType::Deleted,
        ChangeType::Renamed,
        ChangeType::Untracked,
        ChangeType::TypeChange,
        ChangeType::Unmerged,
        ChangeType::Copied,
        ChangeType::Unknown,
    ]
}

/// Position of a change type in `summary_kinds`.
pub open spec fn kind_slot(c: ChangeType) -> int {
    match c {
        ChangeType::Added => 0,
        ChangeType::Modified => 1,
        ChangeType::Deleted => 2,
        ChangeType::Renamed => 3,
        ChangeType::Untracked => 4,
        ChangeType::TypeChange => 5,
        ChangeType::Unmerged => 6,
        ChangeType::Copied => 7,
        ChangeType::Unknown => 8,
    }
}

fn slot_of(c: ChangeType) -> (r: usize)
    ensures
        r == kind_slot(c),
        r < 9,
        summary_kinds()[r as int] == c,
{
    match c {
        ChangeType::Added => 0,
        ChangeType::Modified => 1,
        ChangeType::Deleted => 2,
        ChangeType::Renamed => 3,
        ChangeType::Untracked => 4,
        ChangeType::TypeChange => 5,
        ChangeType::Unmerged => 6,
        ChangeType::Copied => 7,
        ChangeType::Unknown => 8,
    }
}

/// How many changes are of kind `k`.
pub open spec fn count_of(cs: Seq<FileChange>, k: ChangeType) -> nat
    decreases cs.len(),
{
    if cs.len() == 0 {
        0
    } else {
        count_of(cs.drop_last(), k) + (if cs.last().change == k {
            1nat
        } else {
            0nat
        })
    }
}

/// The count of every change type, in summary order.
pub open spec fn spec_counts(cs: Seq<FileChange>) -> Seq<(ChangeType, usize)> {
    summary_kinds().map(|j: int, k: ChangeType| (k, count_of(cs, k) as usize))
}

/// Counts the changes of each type, in summary order, zeros included.
pub fn summarize_change_counts(changes: &[FileChange]) -> (r: Vec<(ChangeType, usize)>)
    ensures
        r@ == spec_counts(changes@),
{
    let mut counts: Vec<usize> = vec![0, 0, 0, 0, 0, 0, 0, 0, 0];
    let mut i: usize = 0;
    while i < changes.len()
        invariant
            i <= changes@.len(),
            counts@.len() == 9,
            forall|j: int|
                0 <= j < 9 ==> #[trigger] counts@[j] == count_of(changes@.take(i as int), summary_kinds()[j])
                    && counts@[j] <= i,
        decreases changes@.len() - i,
    {
        let slot = slot_of(changes[i].change);
        proof {
            assert(changes@.take(i + 1).drop_last() =~= changes@.take(i as int));
        }
        let bumped = counts[slot] + 1;
        counts.set(slot, bumped);
        i = i + 1;
    }
    proof {
        assert(changes@.take(i as int) =~= changes@);
    }
    let r = vec![
        (ChangeType::Added, counts[0]),
        (ChangeType::Modified, counts[1]),
        (ChangeType::Deleted, counts[2]),
        (ChangeType::Renamed, counts[3]),
        (ChangeType::Untracked, counts[4]),
        (ChangeType::TypeChange, counts[5]),
        (ChangeType::Unmerged, counts[6]),
        (ChangeType::Copied, counts[7]),
        (ChangeType::Unknown, counts[8]),
    ];
    assert(r@ =~= spec_counts(changes@));
    r
}

/// The `"<count> <word>"` parts for the non-zero counts, in order.
pub open spec fn summary_parts(counts: Seq<(ChangeType, usize)>) -> Seq<Seq<char>>
    decreases counts.len(),
{
    if counts.len() == 0 {
        seq![]
    } else {
        let rest = summary_parts(counts.drop_last());
        let (k, n) = counts.last();
        if n > 0 {
            rest.push(dec_str(n as nat) + " "@ + change_word(k))
        } else {
            rest
        }
    }
}

/// `"<n> changes"`, followed by the non-zero counts in parentheses when there are any.
pub open spec fn spec_summary(cs: Seq<FileChange>) -> Seq<char> {
    let parts = summary_parts(spec_counts(cs));
    dec_str(cs.len()) + " changes"@ + (if parts.len() == 0 {
        Seq::empty()
    } else {
        " ("@ + join(parts, ", "@) + ")"@
    })
}

/// The one-line summary of the working tree's changes.
pub fn summary_text(status: &RepoStatus) -> (r: String)
    ensures
        r@ == spec_summary(status.changes@),
{
    let counts = summarize_change_counts(status.changes.as_slice());
    let mut parts: Vec<String> = Vec::new();
    let mut i: usize = 0;
    proof {
        assert(counts@.take(0) =~= Seq::<(ChangeType, usize)>::empty());
        assert(string_views(parts@) =~= summary_parts(counts@.take(0)));
    }
    while i < counts.len()
        invariant
            i <= counts@.len(),
            string_views(parts@) == summary_parts(counts@.take(i as int)),
        decreases counts@.len() - i,
    {
        let (kind, n) = counts[i];
        proof {
            assert(counts@.take(i + 1).drop_last() =~= counts@.take(i as int));
            assert(counts@.take(i + 1).last() == counts@[i as int]);
        }
        if n > 0 {
            let mut part = String::new();
            push_decimal(&mut part, n);
            push_str(&mut part, " ");
            push_str(&mut part, change_label(kind));
            let ghost before = string_views(parts@);
            parts.push(part);
            proof {
                assert(string_views(parts@) =~= before.push(part@));
                assert(part@ =~= dec_str(n as nat) + " "@ + change_word(kind));
            }
        }
        i = i + 1;
    }
    proof {
        assert(counts@.take(i as int) =~= counts@);
    }
    let mut out = String::new();
    push_decimal(&mut out, status.total_changes());
    push_str(&mut out, " changes");
    if parts.len() > 0 {
        push_str(&mut out, " (");
        push_joined(&mut out, parts.as_slice(), ", ");
        push_str(&mut out, ")");
    }
    assert(out@ =~= spec_summary(status.changes@));
    out
}

/// The status bar's key hints: the global keys, then the focused region's own.
pub open spec fn spec_keys_hint(region: Region) -> Seq<char> {
    let base = seq!["[q] quit"@, "[l] local changes"@];
    let own = region_hints(region);
    join(
        if own.len() == 0 {
            base
        } else {
            base + seq!["│"@] + own
        },
        "  "@,
    )
}

/// The key hints shown at the bottom of the status bar.
pub fn keys_hint_line(region: Region) -> (r: String)
    ensures
        r@ == spec_keys_hint(region),
{
    let mut text: Vec<String> = vec![to_owned_string("[q] quit"), to_owned_string("[l] local changes")];
    let specific = region.instructions();
    if specific.len() > 0 {
        text.push(to_owned_string("│"));
        let mut i: usize = 0;
        let ghost start = string_views(text@);
        while i < specific.len()
            invariant
                i <= specific@.len(),
                string_views(text@) == start + str_views(specific@).take(i as int),
            decreases specific@.len() - i,
        {
            let ghost before = string_views(text@);
            text.push(to_owned_string(specific[i]));
            proof {
                assert(string_views(text@) =~= before.push(specific@[i as int]@));
                assert(str_views(specific@).take(i + 1) =~= str_views(specific@).take(i as int).push(
                    specific@[i as int]@,
                ));
            }
            i = i + 1;
        }
        proof {
            assert(str_views(specific@).take(i as int) =~= str_views(specific@));
        }
    }
    let mut out = String::new();
    push_joined(&mut out, text.as_slice(), "  ");
    assert(string_views(text@) =~= (if region_hints(region).len() == 0 {
        seq!["[q] quit"@, "[l] local changes"@]
    } else {
        seq!["[q] quit"@, "[l] local changes"@] + seq!["│"@] + region_hints(region)
    }));
    assert(out@ =~= spec_keys_hint(region));
    out
}

/// The status bar's view of the repository for one region.
pub struct StatusBox<'a> {
    pub status: &'a RepoStatus,
    pub region: Region,
}

impl<'a> StatusBox<'a> {
    pub fn new(status: &'a RepoStatus, region: Region) -> (r: Self)
        ensures
            r.status == status,
            r.region == region,
    {
        StatusBox { status, region }
    }

    /// The title: the workspace, with the repository's name when known.
    pub fn title(&self) -> (r: String)
        ensures
            r@ == (match self.status.repo_name {
                Some(name) => "Workspace • "@ + name@,
                None => "Workspace"@,
            }),
    {
        let mut out = String::new();
        match &self.status.repo_name {
            Some(name) => {
                push_str(&mut out, "Workspace • ");
                push_str(&mut out, name.as_str());
            },
            None => push_str(&mut out, "Workspace"),
        }
        assert(out@ =~= (match self.status.repo_name {
            Some(name) => "Workspace • "@ + name@,
            None => "Workspace"@,
        }));
        out
    }

    /// The badge before the summary.
    pub fn badge(&self) -> (r: &'static str)
        ensures
            r@ == (if self.status.error is None && self.status.changes@.len() == 0 {
                "✓ clean"@
            } else {
                "● dirty"@
            }),
    {
        if self.status.is_clean() {
            "✓ clean"
        } else {
            "● dirty"
        }
    }
}

} // verus!
