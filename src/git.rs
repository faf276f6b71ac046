//! The repository data model and the decoder for porcelain status lines.
use vstd::prelude::*;
use crate::text::{
    chars_of, find_from, find_in, lemma_find_from, seq_lt, str_lt, string_from_range, trim, trim_range,
};

verus! {

/// One commit of the log.
#[derive(Debug, PartialEq, Eq)]
pub struct Commit {
    /// Short hash, unique within one snapshot.
    pub id: String,
    pub summary: String,
    /// Branches whose tips cover this commit.
    pub branches: Vec<String>,
}

/// One branch, local or remote.
#[derive(Debug, PartialEq, Eq)]
pub struct BranchSummary {
    pub name: String,
    pub ahead: Option<usize>,
    pub behind: Option<usize>,
    pub is_remote: bool,
    /// The remote reference to check out; present for remote branches.
    pub remote_ref: Option<String>,
}

/// The branch panel's model: the branches, the checked-out one, a fetch error,
/// the hovered row and the sticky selection.
#[derive(Debug)]
pub struct BranchInfo {
    pub branches: Vec<BranchSummary>,
    pub current: Option<String>,
    pub status: Option<String>,
    pub hovered: Option<usize>,
    pub selected: Option<String>,
}

impl Default for BranchInfo {
    fn default() -> (r: BranchInfo)
        ensures
            r.branches@.len() == 0,
            r.current is None,
            r.status is None,
            r.hovered is None,
            r.selected is None,
    {
        BranchInfo {
            branches: Vec::new(),
            current: None,
            status: None,
            hovered: None,
            selected: None,
        }
    }
}

/// The kind of a change in the working tree or the index.
#[derive(Debug, Clone, Copy, PartialEq, Eq, Structural)]
pub enum ChangeType {
    Added,
    Modified,
    Deleted,
    Renamed,
    Copied,
    TypeChange,
    Untracked,
    Unmerged,
    Unknown,
}

/// One changed file, staged or not.
#[derive(Debug, PartialEq, Eq)]
pub struct FileChange {
    pub path: String,
    pub change: ChangeType,
    pub staged: bool,
}

impl View for FileChange {
    type V = (Seq<char>, ChangeType, bool);

    open spec fn view(&self) -> (Seq<char>, ChangeType, bool) {
        (self.path@, self.change, self.staged)
    }
}

/// The views of a list of changes.
pub open spec fn change_views(s: Seq<FileChange>) -> Seq<(Seq<char>, ChangeType, bool)> {
    s.map_values(|c: FileChange| c@)
}

/// The working tree's status: changes sorted by path, a fetch error, the repository's name.
#[derive(Debug, PartialEq, Eq)]
pub struct RepoStatus {
    pub changes: Vec<FileChange>,
    pub error: Option<String>,
    pub repo_name: Option<String>,
}

impl Default for RepoStatus {
    fn default() -> (r: RepoStatus)
        ensures
            r.changes@.len() == 0,
            r.error is None,
            r.repo_name is None,
    {
        RepoStatus { changes: Vec::new(), error: None, repo_name: None }
    }
}

impl RepoStatus {
    /// Number of change records.
    pub fn total_changes(&self) -> (r: usize)
        ensures
            r == self.changes@.len(),
    {
        self.changes.len()
    }

    /// No error and no changes.
    pub fn is_clean(&self) -> (r: bool)
        ensures
            r == (self.error is None && self.changes@.len() == 0),
    {
        self.error.is_none() && self.changes.len() == 0
    }
}

/// The change type that a one-letter status flag stands for.
pub open spec fn flag_type(flag: char) -> ChangeType {
    if flag == 'A' {
        ChangeType::Added
    } else if flag == 'M' {
        ChangeType::Modified
    } else if flag == 'D' {
        ChangeType::Deleted
    } else if flag == 'R' {
        ChangeType::Renamed
    } else if flag == 'C' {
        ChangeType::Copied
    } else if flag == 'T' {
        ChangeType::TypeChange
    } else if flag == 'U' {
        ChangeType::Unmerged
    } else if flag == '?' {
        ChangeType::Untracked
    } else {
        ChangeType::Unknown
    }
}

/// Maps a status flag to its change type.
pub fn change_type_from_flag(flag: char) -> (r: ChangeType)
    ensures
        r == flag_type(flag),
{
    match flag {
        'A' => ChangeType::Added,
        'M' => ChangeType::Modified,
        'D' => ChangeType::Deleted,
        'R' => ChangeType::Renamed,
        'C' => ChangeType::Copied,
        'T' => ChangeType::TypeChange,
        'U' => ChangeType::Unmerged,
        '?' => ChangeType::Untracked,
        _ => ChangeType::Unknown,
    }
}

/// The code `??` of an untracked file.
pub open spec fn is_untracked_code(code: Seq<char>) -> bool {
    code.len() == 2 && code[0] == '?' && code[1] == '?'
}

/// The flag at position `i` of a code, a space when the code is shorter.
pub open spec fn code_flag(code: Seq<char>, i: int) -> char {
    if i < code.len() {
        code[i]
    } else {
        ' '
    }
}

fn flag_at(code: &Vec<char>, i: usize) -> (r: char)
    ensures
        r == code_flag(code@, i as int),
{
    if i < code.len() {
        code[i]
    } else {
        ' '
    }
}

fn untracked_code(code: &Vec<char>) -> (r: bool)
    ensures
        r == is_untracked_code(code@),
{
    code.len() == 2 && code[0] == '?' && code[1] == '?'
}

/// A two-letter code is staged when its first flag is not a space (and it is not `??`).
pub fn is_staged(code: &str) -> (r: bool)
    ensures
        r == (!is_untracked_code(code@) && code@.len() > 0 && code@[0] != ' '),
{
    let c = chars_of(code);
    if untracked_code(&c) {
        return false;
    }
    c.len() > 0 && c[0] != ' '
}

/// The change type of a whole code: `??` is untracked, otherwise the first
/// non-space flag decides.
pub fn change_type_from_code(code: &str) -> (r: ChangeType)
    ensures
        r == (if is_untracked_code(code@) {
            ChangeType::Untracked
        } else if code_flag(code@, 0) != ' ' {
            flag_type(code_flag(code@, 0))
        } else {
            flag_type(code_flag(code@, 1))
        }),
{
    let c = chars_of(code);
    if untracked_code(&c) {
        return ChangeType::Untracked;
    }
    let x = flag_at(&c, 0);
    let y = flag_at(&c, 1);
    let flag = if x != ' ' {
        x
    } else {
        y
    };
    change_type_from_flag(flag)
}

/// The separator of a rename, `old -> new`.
pub open spec fn arrow() -> Seq<char> {
    seq![' ', '-', '>', ' ']
}

/// The trimmed text after the code and its separating space.
pub open spec fn raw_status_path(line: Seq<char>) -> Seq<char> {
    trim(line.skip(3))
}

/// The path that a status line names: for a rename, the trimmed new path.
pub open spec fn status_path(line: Seq<char>) -> Seq<char> {
    let p = raw_status_path(line);
    match find_from(p, arrow(), 0) {
        Some(i) => trim(p.skip(i + 4)),
        None => p,
    }
}

/// The records that one status line decodes to.
pub open spec fn decode_line(line: Seq<char>) -> Seq<(Seq<char>, ChangeType, bool)> {
    if line.len() < 3 || raw_status_path(line).len() == 0 {
        seq![]
    } else if line[0] == '?' && line[1] == '?' {
        seq![(status_path(line), ChangeType::Untracked, false)]
    } else {
        let staged: Seq<(Seq<char>, ChangeType, bool)> = if line[0] != ' ' {
            seq![(status_path(line), flag_type(line[0]), true)]
        } else {
            seq![]
        };
        let unstaged: Seq<(Seq<char>, ChangeType, bool)> = if line[1] != ' ' {
            seq![(status_path(line), flag_type(line[1]), false)]
        } else {
            seq![]
        };
        staged + unstaged
    }
}

/// For a code `XY` and a plain path: `??` gives one untracked unstaged record;
/// otherwise a non-space `X` gives a staged record of `X`'s type, followed by an
/// unstaged record of `Y`'s type when `Y` is not a space.
pub proof fn lemma_decode_code(x: char, y: char, path: Seq<char>)
    requires
        path.len() > 0,
        trim(path) == path,
        find_from(path, arrow(), 0) is None,
    ensures
        decode_line(seq![x, y, ' '] + path) == (if x == '?' && y == '?' {
            seq![(path, ChangeType::Untracked, false)]
        } else {
            (if x != ' ' {
                seq![(path, flag_type(x), true)]
            } else {
                Seq::empty()
            }) + (if y != ' ' {
                seq![(path, flag_type(y), false)]
            } else {
                Seq::empty()
            })
        }),
{
    let line = seq![x, y, ' '] + path;
    assert(line.skip(3) =~= path);
}

/// Decodes one porcelain status line into its change records.
pub fn parse_status_line(line: &str) -> (r: Vec<FileChange>)
    ensures
        change_views(r@) == decode_line(line@),
{
    let chars = chars_of(line);
    let mut entries: Vec<FileChange> = Vec::new();
    if chars.len() < 3 {
        proof {
            assert(change_views(entries@) =~= decode_line(line@));
        }
        return entries;
    }
    let n = chars.len();
    let (lo, hi) = trim_range(&chars, 3, n);
    proof {
        assert(chars@.skip(3) =~= chars@.subrange(3, n as int));
    }
    if lo == hi {
        proof {
            assert(change_views(entries@) =~= decode_line(line@));
        }
        return entries;
    }
    let sep: Vec<char> = vec![' ', '-', '>', ' '];
    proof {
        assert(sep@ =~= arrow());
    }
    let (a, b) = match find_in(&chars, &sep, lo, hi) {
        Some(i) => {
            proof {
                lemma_find_from(chars@.subrange(lo as int, hi as int), sep@, 0);
                assert(chars@.subrange(lo as int, hi as int).skip(i - lo + 4) =~= chars@.subrange(
                    i + 4,
                    hi as int,
                ));
            }
            trim_range(&chars, i + 4, hi)
        },
        None => (lo, hi),
    };
    let ghost path = status_path(line@);
    let x = chars[0];
    let y = chars[1];
    if x == '?' && y == '?' {
        entries.push(FileChange {
            path: string_from_range(&chars, a, b),
            change: ChangeType::Untracked,
            staged: false,
        });
        proof {
            assert(change_views(entries@) =~= decode_line(line@));
        }
        return entries;
    }
    if x != ' ' {
        entries.push(
            FileChange { path: string_from_range(&chars, a, b), change: change_type_from_flag(x), staged: true },
        );
    }
    if y != ' ' {
        entries.push(
            FileChange { path: string_from_range(&chars, a, b), change: change_type_from_flag(y), staged: false },
        );
    }
    proof {
        assert(change_views(entries@) =~= decode_line(line@));
    }
    entries
}

/// Inserts `x` into `sorted` after every record whose path is not greater than its own.
pub open spec fn insert_by_path(
    sorted: Seq<(Seq<char>, ChangeType, bool)>,
    x: (Seq<char>, ChangeType, bool),
) -> Seq<(Seq<char>, ChangeType, bool)>
    decreases sorted.len(),
{
    if sorted.len() == 0 {
        seq![x]
    } else if seq_lt(x.0, sorted.last().0) {
        insert_by_path(sorted.drop_last(), x).push(sorted.last())
    } else {
        sorted.push(x)
    }
}

/// The stable sort of `s` by path.
pub open spec fn sort_by_path(s: Seq<(Seq<char>, ChangeType, bool)>) -> Seq<
    (Seq<char>, ChangeType, bool),
>
    decreases s.len(),
{
    if s.len() == 0 {
        seq![]
    } else {
        insert_by_path(sort_by_path(s.drop_last()), s.last())
    }
}

/// The records of all lines, in line order.
pub open spec fn decode_lines(lines: Seq<Seq<char>>) -> Seq<(Seq<char>, ChangeType, bool)>
    decreases lines.len(),
{
    if lines.len() == 0 {
        seq![]
    } else {
        decode_lines(lines.drop_last()) + decode_line(lines.last())
    }
}

/// The decoded status report: all records, stably sorted by path.
pub open spec fn decode_report(lines: Seq<Seq<char>>) -> Seq<(Seq<char>, ChangeType, bool)> {
    sort_by_path(decode_lines(lines))
}

/// The text of each line.
pub open spec fn line_views(lines: Seq<String>) -> Seq<Seq<char>> {
    lines.map_values(|l: String| l@)
}

proof fn lemma_insert_position(
    s: Seq<(Seq<char>, ChangeType, bool)>,
    x: (Seq<char>, ChangeType, bool),
    j: int,
)
    requires
        0 <= j <= s.len(),
        forall|m: int| j <= m < s.len() ==> seq_lt(x.0, #[trigger] s[m].0),
        j == 0 || !seq_lt(x.0, s[j - 1].0),
    ensures
        insert_by_path(s, x) == s.insert(j, x),
    decreases s.len(),
{
    if s.len() == 0 {
        assert(s.insert(j, x) =~= seq![x]);
    } else if seq_lt(x.0, s.last().0) {
        let t = s.drop_last();
        assert(j < s.len());
        lemma_insert_position(t, x, j);
        assert(t.insert(j, x).push(s.last()) =~= s.insert(j, x));
    } else {
        assert(j == s.len());
        assert(s.push(x) =~= s.insert(j, x));
    }
}

proof fn lemma_sort_push(s: Seq<(Seq<char>, ChangeType, bool)>, x: (Seq<char>, ChangeType, bool))
    ensures
        sort_by_path(s.push(x)) == insert_by_path(sort_by_path(s), x),
{
    assert(s.push(x).drop_last() =~= s);
}

/// Inserts `x` after every change whose path is not greater than its own.
fn insert_sorted(out: &mut Vec<FileChange>, x: FileChange)
    ensures
        change_views(final(out)@) == insert_by_path(change_views(old(out)@), x@),
{
    let mut j = out.len();
    while j > 0 && str_lt(x.path.as_str(), out[j - 1].path.as_str())
        invariant
            j <= out@.len(),
            forall|m: int| j <= m < out@.len() ==> seq_lt(x.path@, #[trigger] out@[m].path@),
        decreases j,
    {
        j = j - 1;
    }
    proof {
        lemma_insert_position(change_views(out@), x@, j as int);
    }
    out.insert(j, x);
    proof {
        assert(change_views(out@) =~= change_views(old(out)@).insert(j as int, x@));
    }
}

/// Decodes a whole status report: the records of every line, stably sorted by
/// path, so the staged and unstaged halves of one file stay adjacent.
pub fn decode_status_report(lines: &Vec<String>) -> (r: Vec<FileChange>)
    ensures
        change_views(r@) == decode_report(line_views(lines@)),
{
    let mut out: Vec<FileChange> = Vec::new();
    let ghost views = line_views(lines@);
    let mut i: usize = 0;
    proof {
        assert(views.take(0) =~= Seq::<Seq<char>>::empty());
        assert(change_views(out@) =~= Seq::empty());
    }
    while i < lines.len()
        invariant
            i <= lines@.len(),
            views == line_views(lines@),
            change_views(out@) == sort_by_path(decode_lines(views.take(i as int))),
        decreases lines@.len() - i,
    {
        let mut recs = parse_status_line(lines[i].as_str());
        let ghost done = decode_lines(views.take(i as int));
        let ghost line = decode_line(views[i as int]);
        let count = recs.len();
        let ghost total = recs@.len();
        let mut j: usize = 0;
        proof {
            assert(line.take(0) =~= Seq::empty());
            assert(done + line.take(0) =~= done);
        }
        while recs.len() > 0
            invariant
                j + recs@.len() == total,
                total == line.len(),
                total == count,
                change_views(recs@) == line.skip(j as int),
                change_views(out@) == sort_by_path(done + line.take(j as int)),
            decreases recs@.len(),
        {
            let ghost before = change_views(recs@);
            let rec = recs.remove(0);
            proof {
                assert(change_views(recs@) =~= before.drop_first());
                assert(line.skip(j as int)[0] == rec@);
                lemma_sort_push(done + line.take(j as int), rec@);
                assert((done + line.take(j as int)).push(rec@) =~= done + line.take(j + 1));
                assert(change_views(recs@) =~= line.skip(j + 1));
            }
            insert_sorted(&mut out, rec);
            j = j + 1;
        }
        proof {
            assert(line.take(j as int) =~= line);
            assert(views.take(i + 1).drop_last() =~= views.take(i as int));
        }
        i = i + 1;
    }
    proof {
        assert(views.take(i as int) =~= views);
    }
    out
}

/// The status model built from a fetched report: the decoded changes, or the
/// fetch error with no changes.
pub fn repo_status_from_report(report: Result<Vec<String>, String>, repo_name: Option<String>) -> (r: RepoStatus)
    ensures
        r.repo_name == repo_name,
        match report {
            Ok(lines) => r.error is None && change_views(r.changes@) == decode_report(
                line_views(lines@),
            ),
            Err(e) => r.error == Some(e) && r.changes@.len() == 0,
        },
{
    match report {
        Ok(lines) => RepoStatus {
            changes: decode_status_report(&lines),
            error: None,
            repo_name,
        },
        Err(e) => RepoStatus { changes: Vec::new(), error: Some(e), repo_name },
    }
}

} // verus!
