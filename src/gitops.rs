//! Decisions and text handling around calls to the `git` tool: which remote to
//! use, how to word its errors, and how to read its log output.
use vstd::prelude::*;
use crate::format::{concat3, to_owned_string};
use crate::text::{
    chars_of, find_from, find_in, lemma_find_from, str_eq, string_from_range, trim, trim_range,
    trimmed,
};

verus! {

/// `s` with every leading copy of `p` removed.
pub open spec fn strip_all(s: Seq<char>, p: Seq<char>) -> Seq<char>
    decreases s.len(),
{
    if p.len() > 0 && p.len() <= s.len() && s.take(p.len() as int) == p {
        strip_all(s.skip(p.len() as int), p)
    } else {
        s
    }
}

/// The start of `s[from..]` after removing every leading copy of `p`.
fn strip_start(s: &Vec<char>, from: usize, p: &str) -> (r: usize)
    requires
        from <= s@.len(),
    ensures
        from <= r <= s@.len(),
        s@.skip(r as int) == strip_all(s@.skip(from as int), p@),
{
    let pc = chars_of(p);
    let mut i = from;
    while pc.len() > 0 && pc.len() <= s.len() - i && starts_with_at(s, i, &pc)
        invariant
            from <= i <= s@.len(),
            pc@ == p@,
            strip_all(s@.skip(i as int), p@) == strip_all(s@.skip(from as int), p@),
        decreases s@.len() - i,
    {
        proof {
            assert(s@.skip(i as int).skip(pc@.len() as int) =~= s@.skip(i + pc@.len()));
        }
        i = i + pc.len();
    }
    proof {
        if pc@.len() > 0 && pc@.len() <= s@.len() - i {
            assert(s@.skip(i as int).take(pc@.len() as int) != p@);
        }
    }
    i
}

/// Whether `p` occurs in `s` at position `i`.
fn starts_with_at(s: &Vec<char>, i: usize, p: &Vec<char>) -> (r: bool)
    requires
        i + p@.len() <= s@.len(),
    ensures
        r == (s@.skip(i as int).take(p@.len() as int) == p@),
{
    let n = s.len();
    let mut j: usize = 0;
    while j < p.len()
        invariant
            n == s@.len(),
            i + p@.len() <= s@.len(),
            j <= p@.len(),
            forall|m: int| 0 <= m < j ==> s@[i + m] == p@[m],
        decreases p@.len() - j,
    {
        if s[i + j] != p[j] {
            assert(s@.skip(i as int).take(p@.len() as int)[j as int] != p@[j as int]);
            return false;
        }
        j = j + 1;
    }
    assert(s@.skip(i as int).take(p@.len() as int) =~= p@);
    true
}

/// The text before the first line feed (all of it when there is none).
pub open spec fn first_line(s: Seq<char>) -> Seq<char> {
    match find_from(s, seq!['\n'], 0) {
        Some(i) => s.take(i),
        None => s,
    }
}

/// The first line of a tool message, trimmed, without `fatal: ` or `error: ` prefixes.
pub open spec fn spec_clean_message(s: Seq<char>) -> Seq<char> {
    trim(strip_all(strip_all(trim(first_line(s)), "fatal: "@), "error: "@))
}

/// Shortens a message of the tool to its first line, without its severity prefix.
pub fn clean_git_message(message: &str) -> (r: String)
    ensures
        r@ == spec_clean_message(message@),
{
    let cs = chars_of(message);
    let nl: Vec<char> = vec!['\n'];
    assert(cs@.subrange(0, cs@.len() as int) =~= cs@);
    let end = match find_in(&cs, &nl, 0, cs.len()) {
        Some(i) => {
            proof {
                lemma_find_from(cs@, nl@, 0);
                assert(nl@ =~= seq!['\n']);
            }
            i
        },
        None => {
            assert(nl@ =~= seq!['\n']);
            cs.len()
        },
    };
    proof {
        assert(nl@ =~= seq!['\n']);
        assert(cs@.subrange(0, end as int) =~= first_line(message@));
    }
    let (lo, hi) = trim_range(&cs, 0, end);
    let line: Vec<char> = chars_of(string_from_range(&cs, lo, hi).as_str());
    let a = strip_start(&line, 0, "fatal: ");
    let b = strip_start(&line, a, "error: ");
    proof {
        assert(line@.skip(0) =~= line@);
    }
    let (x, y) = trim_range(&line, b, line.len());
    proof {
        assert(line@.subrange(b as int, line@.len() as int) =~= line@.skip(b as int));
    }
    string_from_range(&line, x, y)
}

/// The remote part of an upstream such as `origin/main`: the text before the first `/`.
pub open spec fn spec_upstream_remote(upstream: Seq<char>) -> Option<Seq<char>> {
    match find_from(upstream, seq!['/'], 0) {
        Some(i) => Some(upstream.take(i)),
        None => None,
    }
}

/// The remote named by an upstream reference, if it has one.
pub fn upstream_remote(upstream: &str) -> (r: Option<String>)
    ensures
        match r {
            Some(s) => spec_upstream_remote(upstream@) == Some(s@),
            None => spec_upstream_remote(upstream@) is None,
        },
{
    let cs = chars_of(upstream);
    let slash: Vec<char> = vec!['/'];
    assert(slash@ =~= seq!['/']);
    assert(cs@.subrange(0, cs@.len() as int) =~= cs@);
    match find_in(&cs, &slash, 0, cs.len()) {
        Some(i) => {
            proof {
                lemma_find_from(cs@, slash@, 0);
            }
            let r = string_from_range(&cs, 0, i);
            assert(r@ =~= cs@.take(i as int));
            Some(r)
        },
        None => None,
    }
}

/// The view of an optional string.
pub open spec fn opt_view(s: Option<String>) -> Option<Seq<char>> {
    match s {
        Some(x) => Some(x@),
        None => None,
    }
}

/// The remote to pull from: the upstream's remote, else the branch's configured
/// remote, else the first remote.
pub open spec fn spec_pull_remote(
    upstream: Option<Seq<char>>,
    branch_remote: Option<String>,
    first_remote: Option<String>,
) -> Option<Seq<char>> {
    let from_upstream = match upstream {
        Some(u) => spec_upstream_remote(u),
        None => None,
    };
    match from_upstream {
        Some(x) => Some(x),
        None => match branch_remote {
            Some(b) => Some(b@),
            None => opt_view(first_remote),
        },
    }
}

/// Picks the remote to pull from.
pub fn choose_pull_remote(
    upstream: Option<&str>,
    branch_remote: Option<String>,
    first_remote: Option<String>,
) -> (r: Option<String>)
    ensures
        opt_view(r) == spec_pull_remote(
            match upstream {
                Some(u) => Some(u@),
                None => None,
            },
            branch_remote,
            first_remote,
        ),
{
    let from_upstream = match upstream {
        Some(u) => upstream_remote(u),
        None => None,
    };
    match from_upstream {
        Some(x) => Some(x),
        None => match branch_remote {
            Some(b) => Some(b),
            None => first_remote,
        },
    }
}

/// The remote to push to: the whole upstream, else the branch's configured remote,
/// else the first remote.
pub fn choose_push_remote(
    upstream: Option<&str>,
    branch_remote: Option<String>,
    first_remote: Option<String>,
) -> (r: Option<String>)
    ensures
        opt_view(r) == (match upstream {
            Some(u) => Some(u@),
            None => match branch_remote {
                Some(b) => Some(b@),
                None => opt_view(first_remote),
            },
        }),
{
    match upstream {
        Some(u) => Some(to_owned_string(u)),
        None => match branch_remote {
            Some(b) => Some(b),
            None => first_remote,
        },
    }
}

/// The upstream to set for `branch` on `remote`: the configured merge branch
/// (without `refs/heads/`) when there is one, else the branch's own name.
pub open spec fn spec_remote_target(merge: Option<Seq<char>>, remote: Seq<char>, branch: Seq<char>) -> Seq<char> {
    match merge {
        Some(m) => remote + "/"@ + strip_all(m, "refs/heads/"@),
        None => remote + "/"@ + branch,
    }
}

/// Names the remote branch that `branch` should track.
pub fn branch_remote_target(merge: Option<&str>, remote: &str, branch: &str) -> (r: String)
    ensures
        r@ == spec_remote_target(
            match merge {
                Some(m) => Some(m@),
                None => None,
            },
            remote@,
            branch@,
        ),
{
    match merge {
        Some(m) => {
            let cs = chars_of(m);
            let start = strip_start(&cs, 0, "refs/heads/");
            proof {
                assert(cs@.skip(0) =~= cs@);
                assert(cs@.subrange(start as int, cs@.len() as int) =~= cs@.skip(start as int));
            }
            let rest = string_from_range(&cs, start, cs.len());
            concat3(remote, "/", rest.as_str())
        },
        None => concat3(remote, "/", branch),
    }
}

/// The default branch: `main` when it exists, else `master` when it exists.
pub fn main_branch_name(has_main: bool, has_master: bool) -> (r: Option<String>)
    ensures
        opt_view(r) == (if has_main {
            Some("main"@)
        } else if has_master {
            Some("master"@)
        } else {
            None
        }),
{
    if has_main {
        Some(to_owned_string("main"))
    } else if has_master {
        Some(to_owned_string("master"))
    } else {
        None
    }
}

/// One line of the log: full id, short id and summary.
#[derive(Debug, PartialEq, Eq)]
pub struct LogEntry {
    pub full_id: String,
    pub short_id: String,
    pub summary: String,
}

/// The three tab-separated fields of a log line (at most three: the last one
/// keeps any further tabs), missing fields empty.
pub open spec fn log_fields(line: Seq<char>) -> (Seq<char>, Seq<char>, Seq<char>) {
    let tab = seq!['\t'];
    match find_from(line, tab, 0) {
        None => (line, Seq::empty(), Seq::empty()),
        Some(i) => {
            let rest = line.skip(i + 1);
            match find_from(rest, tab, 0) {
                None => (line.take(i), rest, Seq::empty()),
                Some(j) => (line.take(i), rest.take(j), rest.skip(j + 1)),
            }
        },
    }
}

/// A log line as an entry, unless its full or short id is blank.
pub open spec fn spec_log_entry(line: Seq<char>) -> Option<(Seq<char>, Seq<char>, Seq<char>)> {
    let (a, b, c) = log_fields(line);
    if trim(a).len() == 0 || trim(b).len() == 0 {
        None
    } else {
        Some((trim(a), trim(b), trim(c)))
    }
}

/// Reads one line of `git log --pretty=format:%H%x09%h%x09%s`.
pub fn parse_log_line(line: &str) -> (r: Option<LogEntry>)
    ensures
        match r {
            Some(e) => spec_log_entry(line@) == Some((e.full_id@, e.short_id@, e.summary@)),
            None => spec_log_entry(line@) is None,
        },
{
    let cs = chars_of(line);
    let n = cs.len();
    let tab: Vec<char> = vec!['\t'];
    assert(tab@ =~= seq!['\t']);
    assert(cs@.subrange(0, n as int) =~= cs@);
    let (a0, a1, b0, b1, c0, c1) = match find_in(&cs, &tab, 0, n) {
        None => (0, n, n, n, n, n),
        Some(i) => {
            proof {
                lemma_find_from(cs@, tab@, 0);
                assert(cs@.subrange(i + 1, n as int) =~= cs@.skip(i + 1));
            }
            match find_in(&cs, &tab, i + 1, n) {
                None => (0, i, i + 1, n, n, n),
                Some(j) => {
                    proof {
                        lemma_find_from(cs@.skip(i + 1), tab@, 0);
                        assert(cs@.skip(i + 1).take(j - (i + 1)) =~= cs@.subrange(i + 1, j as int));
                        assert(cs@.skip(i + 1).skip(j - (i + 1) + 1) =~= cs@.subrange(j + 1, n as int));
                    }
                    (0, i, i + 1, j, j + 1, n)
                },
            }
        },
    };
    proof {
        assert(cs@.take(a1 as int) =~= cs@.subrange(0, a1 as int));
        assert(cs@.subrange(n as int, n as int) =~= Seq::<char>::empty());
    }
    let (x0, x1) = trim_range(&cs, a0, a1);
    let (y0, y1) = trim_range(&cs, b0, b1);
    let (z0, z1) = trim_range(&cs, c0, c1);
    if x0 == x1 || y0 == y1 {
        return None;
    }
    Some(
        LogEntry {
            full_id: string_from_range(&cs, x0, x1),
            short_id: string_from_range(&cs, y0, y1),
            summary: string_from_range(&cs, z0, z1),
        },
    )
}

/// Holds for every name but `m`.
pub open spec fn other_than(m: Seq<char>) -> spec_fn(Seq<char>) -> bool {
    |b: Seq<char>| b != m
}

/// The branch labels of a commit: the default branch alone when the commit is on
/// it, else the branches containing it other than the default branch.
pub open spec fn spec_commit_branches(
    main: Option<Seq<char>>,
    in_main: bool,
    containing: Seq<Seq<char>>,
) -> Seq<Seq<char>> {
    match main {
        Some(m) => if in_main {
            seq![m]
        } else {
            containing.filter(other_than(m))
        },
        None => containing,
    }
}

/// Chooses the branch labels of a commit.
pub fn commit_branches(main: Option<&str>, in_main: bool, containing: Vec<String>) -> (r: Vec<String>)
    ensures
        crate::format::string_views(r@) == spec_commit_branches(
            match main {
                Some(m) => Some(m@),
                None => None,
            },
            in_main,
            crate::format::string_views(containing@),
        ),
{
    let m = match main {
        None => {
            return containing;
        },
        Some(m) => m,
    };
    {
        {
            if in_main {
                let r = vec![to_owned_string(m)];
                assert(crate::format::string_views(r@) =~= seq![m@]);
                return r;
            }
            let ghost views = crate::format::string_views(containing@);
            let mut out: Vec<String> = Vec::new();
            let mut rest = containing;
            let ghost total = views.len();
            let count = rest.len();
            let mut i: usize = 0;
            proof {
                assert(views.take(0).filter(other_than(m@)) =~= Seq::<Seq<char>>::empty());
                assert(crate::format::string_views(out@) =~= Seq::<Seq<char>>::empty());
            }
            while rest.len() > 0
                invariant
                    i + rest@.len() == total,
                    total == views.len(),
                    total == count,
                    crate::format::string_views(rest@) == views.skip(i as int),
                    crate::format::string_views(out@) == views.take(i as int).filter(other_than(m@)),
                decreases rest@.len(),
            {
                let ghost before = crate::format::string_views(rest@);
                let b = rest.remove(0);
                proof {
                    assert(crate::format::string_views(rest@) =~= before.drop_first());
                    assert(before[0] == b@);
                    assert(views.skip(i as int).drop_first() =~= views.skip(i + 1));
                    assert(views.take(i + 1).drop_last() =~= views.take(i as int));
                    assert(views.take(i + 1).last() == b@);
                    views.take(i as int).lemma_filter_push(b@, other_than(m@));
                    assert(views.take(i as int).push(b@) =~= views.take(i + 1));
                }
                if !str_eq(b.as_str(), m) {
                    let ghost o = crate::format::string_views(out@);
                    out.push(b);
                    assert(crate::format::string_views(out@) =~= o.push(out@.last()@));
                }
                i = i + 1;
            }
            proof {
                assert(views.take(i as int) =~= views);
            }
            out
        }
    }
}

/// The message for a failed call: the cleaned error output, or the exit status
/// when the tool printed nothing.
pub open spec fn spec_git_error(label: Seq<char>, stderr: Seq<char>, status: Seq<char>) -> Seq<char> {
    if trim(stderr).len() == 0 {
        label + " exited with status: "@ + status
    } else {
        spec_clean_message(trim(stderr))
    }
}

/// Words the failure of a call labelled `label`.
pub fn format_git_error(label: &str, stderr: &str, status: &str) -> (r: String)
    ensures
        r@ == spec_git_error(label@, stderr@, status@),
{
    let t = trimmed(stderr);
    if t.as_str().is_empty() {
        concat3(label, " exited with status: ", status)
    } else {
        clean_git_message(t.as_str())
    }
}

/// A blank commit message is refused.
pub fn validate_commit_message(message: &str) -> (r: Result<(), String>)
    ensures
        match r {
            Ok(()) => trim(message@).len() > 0,
            Err(e) => trim(message@).len() == 0 && e@ == "Commit message cannot be empty"@,
        },
{
    if trimmed(message).as_str().is_empty() {
        Err(to_owned_string("Commit message cannot be empty"))
    } else {
        Ok(())
    }
}

/// A blank branch name is refused.
pub fn validate_branch_name(branch: &str) -> (r: Result<(), String>)
    ensures
        match r {
            Ok(()) => trim(branch@).len() > 0,
            Err(e) => trim(branch@).len() == 0 && e@ == "Branch name cannot be empty"@,
        },
{
    if trimmed(branch).as_str().is_empty() {
        Err(to_owned_string("Branch name cannot be empty"))
    } else {
        Ok(())
    }
}

/// Every character is an ASCII digit.
pub open spec fn all_digits(s: Seq<char>) -> bool {
    forall|i: int| 0 <= i < s.len() ==> '0' <= #[trigger] s[i] && s[i] <= '9'
}

/// The number that a string of ASCII digits spells.
pub open spec fn digits_value(s: Seq<char>) -> nat
    decreases s.len(),
{
    if s.len() == 0 {
        0
    } else {
        digits_value(s.drop_last()) * 10 + ((s.last() as u32) - ('0' as u32)) as nat
    }
}

/// An unsigned decimal as `str::parse` reads it: an optional `+`, then at least
/// one digit, and a value that fits.
pub open spec fn spec_parse_usize(s: Seq<char>) -> Option<usize> {
    let d = if s.len() > 0 && s[0] == '+' {
        s.drop_first()
    } else {
        s
    };
    if d.len() > 0 && all_digits(d) && digits_value(d) <= usize::MAX {
        Some(digits_value(d) as usize)
    } else {
        None
    }
}

proof fn lemma_digits_prefix(s: Seq<char>, i: int)
    requires
        0 <= i <= s.len(),
        all_digits(s),
    ensures
        digits_value(s.take(i)) <= digits_value(s),
    decreases s.len() - i,
{
    if i < s.len() {
        lemma_digits_prefix(s, i + 1);
        assert(s.take(i + 1).drop_last() =~= s.take(i));
    } else {
        assert(s.take(i) =~= s);
    }
}

/// The value of a digit string, when it is one and fits.
pub open spec fn digits_result(d: Seq<char>) -> Option<usize> {
    if d.len() > 0 && all_digits(d) && digits_value(d) <= usize::MAX {
        Some(digits_value(d) as usize)
    } else {
        None
    }
}

/// Reads an unsigned decimal from `cs[from..to]`.
fn parse_usize_range(cs: &Vec<char>, from: usize, to: usize) -> (r: Option<usize>)
    requires
        from <= to <= cs@.len(),
    ensures
        r == spec_parse_usize(cs@.subrange(from as int, to as int)),
{
    let ghost s = cs@.subrange(from as int, to as int);
    let start = if from < to && cs[from] == '+' {
        from + 1
    } else {
        from
    };
    let ghost d = cs@.subrange(start as int, to as int);
    proof {
        if from < to && cs@[from as int] == '+' {
            assert(s.drop_first() =~= d);
        } else {
            assert(s =~= d);
        }
    }
    assert(spec_parse_usize(s) == digits_result(d));
    if start == to {
        return None;
    }
    let mut i = start;
    let mut v: usize = 0;
    proof {
        assert(d.take(0) =~= Seq::<char>::empty());
    }
    while i < to
        invariant
            start <= i <= to <= cs@.len(),
            d == cs@.subrange(start as int, to as int),
            spec_parse_usize(cs@.subrange(from as int, to as int)) == digits_result(d),
            d.len() > 0,
            all_digits(d.take(i - start)),
            v == digits_value(d.take(i - start)),
        decreases to - i,
    {
        let c = cs[i];
        if !('0' <= c && c <= '9') {
            proof {
                assert(d[i - start] == c);
            }
            return None;
        }
        let dig = ((c as u32) - ('0' as u32)) as usize;
        proof {
            assert(d.take(i - start + 1).drop_last() =~= d.take(i - start));
            assert(d.take(i - start + 1).last() == c);
            assert(all_digits(d.take(i - start + 1)));
        }
        if v > (usize::MAX - dig) / 10 {
            proof {
                assert(v * 10 + dig > usize::MAX) by (nonlinear_arith)
                    requires
                        v > (usize::MAX - dig) / 10,
                        dig <= 9,
                ;
                let k = i - start + 1;
                if k < d.len() {
                    if all_digits(d) {
                        lemma_digits_prefix(d, k);
                    }
                } else {
                    assert(d.take(k) =~= d);
                }
            }
            return None;
        }
        proof {
            assert(v * 10 + dig <= usize::MAX) by (nonlinear_arith)
                requires
                    v <= (usize::MAX - dig) / 10,
                    dig <= 9,
            ;
        }
        v = v * 10 + dig;
        i = i + 1;
    }
    proof {
        assert(d.take(to - start) =~= d);
    }
    Some(v)
}

/// The text from `from`, skipping whitespace, up to the next whitespace: the
/// bounds of the next word.
fn next_word(cs: &Vec<char>, from: usize) -> (r: (usize, usize))
    requires
        from <= cs@.len(),
    ensures
        from <= r.0 <= r.1 <= cs@.len(),
        forall|i: int| from <= i < r.0 ==> crate::text::is_ws(#[trigger] cs@[i]),
        r.0 < cs@.len() ==> !crate::text::is_ws(cs@[r.0 as int]),
        forall|i: int| r.0 <= i < r.1 ==> !crate::text::is_ws(#[trigger] cs@[i]),
        r.1 < cs@.len() ==> crate::text::is_ws(cs@[r.1 as int]),
{
    let mut a = from;
    while a < cs.len() && crate::text::is_whitespace(cs[a])
        invariant
            from <= a <= cs@.len(),
            forall|i: int| from <= i < a ==> crate::text::is_ws(#[trigger] cs@[i]),
        decreases cs@.len() - a,
    {
        a = a + 1;
    }
    let mut b = a;
    while b < cs.len() && !crate::text::is_whitespace(cs[b])
        invariant
            a <= b <= cs@.len(),
            forall|i: int| a <= i < b ==> !crate::text::is_ws(#[trigger] cs@[i]),
        decreases cs@.len() - b,
    {
        b = b + 1;
    }
    (a, b)
}

/// `[a, b)` is the next whitespace-separated word of `s` at or after `from`
/// (empty, at the end, when there is none).
pub open spec fn is_next_word(s: Seq<char>, from: int, a: int, b: int) -> bool {
    &&& 0 <= from <= a <= b <= s.len()
    &&& forall|i: int| from <= i < a ==> crate::text::is_ws(#[trigger] s[i])
    &&& a < s.len() ==> !crate::text::is_ws(s[a])
    &&& forall|i: int| a <= i < b ==> !crate::text::is_ws(#[trigger] s[i])
    &&& b < s.len() ==> crate::text::is_ws(s[b])
}

/// The two counts read from the words `[a0, a1)` and `[b0, b1)`.
pub open spec fn spec_counts_from_words(s: Seq<char>, a0: int, a1: int, b0: int, b1: int) -> Option<
    (usize, usize),
> {
    if a0 == a1 {
        None
    } else {
        match spec_parse_usize(s.subrange(a0, a1)) {
            None => None,
            Some(x) => if b0 == b1 {
                Some((x, 0usize))
            } else {
                match spec_parse_usize(s.subrange(b0, b1)) {
                    Some(y) => Some((x, y)),
                    None => None,
                }
            },
        }
    }
}

/// Reads the output of `rev-list --left-right --count`: the first two
/// whitespace-separated numbers (a missing second one counts as zero).
pub fn parse_ahead_behind(output: &str) -> (r: Option<(usize, usize)>)
    ensures
        exists|a0: int, a1: int, b0: int, b1: int|
            is_next_word(output@, 0, a0, a1) && is_next_word(output@, a1, b0, b1) && r
                == spec_counts_from_words(output@, a0, a1, b0, b1),
{
    let cs = chars_of(output);
    let (a0, a1) = next_word(&cs, 0);
    let (b0, b1) = next_word(&cs, a1);
    let r = if a0 == a1 {
        None
    } else {
        match parse_usize_range(&cs, a0, a1) {
            None => None,
            Some(x) => {
                if b0 == b1 {
                    Some((x, 0))
                } else {
                    match parse_usize_range(&cs, b0, b1) {
                        Some(y) => Some((x, y)),
                        None => None,
                    }
                }
            },
        }
    };
    proof {
        assert(is_next_word(output@, 0, a0 as int, a1 as int) && is_next_word(
            output@,
            a1 as int,
            b0 as int,
            b1 as int,
        ) && r == spec_counts_from_words(output@, a0 as int, a1 as int, b0 as int, b1 as int));
    }
    r
}

/// Inserts `x` into `sorted` in order, unless it is already there.
pub open spec fn insert_unique(sorted: Seq<Seq<char>>, x: Seq<char>) -> Seq<Seq<char>>
    decreases sorted.len(),
{
    if sorted.len() == 0 {
        seq![x]
    } else if crate::text::seq_lt(x, sorted.last()) {
        insert_unique(sorted.drop_last(), x).push(sorted.last())
    } else if sorted.last() == x {
        sorted
    } else {
        sorted.push(x)
    }
}

/// The names sorted, each kept once.
pub open spec fn sort_unique(s: Seq<Seq<char>>) -> Seq<Seq<char>>
    decreases s.len(),
{
    if s.len() == 0 {
        seq![]
    } else {
        insert_unique(sort_unique(s.drop_last()), s.last())
    }
}

/// A line of `git branch` output without its `* ` marker and surrounding blanks.
pub open spec fn clean_branch_line(line: Seq<char>) -> Seq<char> {
    trim(strip_all(line, "* "@))
}

/// The non-empty cleaned names of the lines, in order.
pub open spec fn branch_names_of(lines: Seq<Seq<char>>) -> Seq<Seq<char>>
    decreases lines.len(),
{
    if lines.len() == 0 {
        seq![]
    } else {
        let rest = branch_names_of(lines.drop_last());
        let c = clean_branch_line(lines.last());
        if c.len() > 0 {
            rest.push(c)
        } else {
            rest
        }
    }
}

proof fn lemma_insert_unique_at(s: Seq<Seq<char>>, x: Seq<char>, j: int)
    requires
        0 <= j <= s.len(),
        forall|m: int| j <= m < s.len() ==> crate::text::seq_lt(x, #[trigger] s[m]),
        j == 0 || !crate::text::seq_lt(x, s[j - 1]),
    ensures
        insert_unique(s, x) == (if j > 0 && s[j - 1] == x {
            s
        } else {
            s.insert(j, x)
        }),
    decreases s.len(),
{
    if s.len() == 0 {
        assert(s.insert(j, x) =~= seq![x]);
    } else if crate::text::seq_lt(x, s.last()) {
        let t = s.drop_last();
        lemma_insert_unique_at(t, x, j);
        if j > 0 && s[j - 1] == x {
            assert(t.push(s.last()) =~= s);
        } else {
            assert(t.insert(j, x).push(s.last()) =~= s.insert(j, x));
        }
    } else {
        assert(j == s.len());
        assert(s.push(x) =~= s.insert(j, x));
    }
}

/// Adds `x` to the sorted list of names unless present.
fn insert_name(out: &mut Vec<String>, x: String)
    ensures
        crate::format::string_views(final(out)@) == insert_unique(
            crate::format::string_views(old(out)@),
            x@,
        ),
{
    let ghost v = crate::format::string_views(out@);
    let mut j = out.len();
    while j > 0 && crate::text::str_lt(x.as_str(), out[j - 1].as_str())
        invariant
            j <= out@.len(),
            v == crate::format::string_views(out@),
            forall|m: int| j <= m < out@.len() ==> crate::text::seq_lt(x@, #[trigger] out@[m]@),
        decreases j,
    {
        j = j - 1;
    }
    proof {
        assert forall|m: int| j <= m < v.len() implies crate::text::seq_lt(x@, #[trigger] v[m]) by {
            assert(v[m] == out@[m]@);
        }
        if j > 0 {
            assert(v[j - 1] == out@[j - 1]@);
        }
        lemma_insert_unique_at(v, x@, j as int);
    }
    if j > 0 && str_eq(out[j - 1].as_str(), x.as_str()) {
        return;
    }
    out.insert(j, x);
    proof {
        assert(crate::format::string_views(out@) =~= v.insert(j as int, x@));
    }
}

/// Reads the output of `git branch --contains`: the branch names, sorted, each once.
pub fn parse_branch_list(lines: &Vec<String>) -> (r: Vec<String>)
    ensures
        crate::format::string_views(r@) == sort_unique(
            branch_names_of(crate::format::string_views(lines@)),
        ),
{
    let ghost views = crate::format::string_views(lines@);
    let mut out: Vec<String> = Vec::new();
    let mut i: usize = 0;
    proof {
        assert(views.take(0) =~= Seq::<Seq<char>>::empty());
        assert(crate::format::string_views(out@) =~= Seq::<Seq<char>>::empty());
    }
    while i < lines.len()
        invariant
            i <= lines@.len(),
            views == crate::format::string_views(lines@),
            crate::format::string_views(out@) == sort_unique(branch_names_of(views.take(i as int))),
        decreases lines@.len() - i,
    {
        let cs = chars_of(lines[i].as_str());
        let start = strip_start(&cs, 0, "* ");
        let (lo, hi) = trim_range(&cs, start, cs.len());
        proof {
            assert(cs@.skip(0) =~= cs@);
            assert(cs@.subrange(start as int, cs@.len() as int) =~= cs@.skip(start as int));
            assert(views.take(i + 1).drop_last() =~= views.take(i as int));
            assert(views.take(i + 1).last() == lines@[i as int]@);
        }
        if lo < hi {
            let name = string_from_range(&cs, lo, hi);
            proof {
                let names = branch_names_of(views.take(i as int));
                assert(names.push(name@).drop_last() =~= names);
            }
            insert_name(&mut out, name);
        }
        i = i + 1;
    }
    proof {
        assert(views.take(i as int) =~= views);
    }
    out
}

/// What a branch is compared with for ahead/behind counts: its upstream, else the
/// default branch unless that is the branch itself.
pub fn ahead_behind_target(upstream: Option<String>, branch: &str, default_branch: Option<&str>) -> (r: Option<String>)
    ensures
        opt_view(r) == (match upstream {
            Some(u) => Some(u@),
            None => match default_branch {
                Some(d) => if d@ != branch@ {
                    Some(d@)
                } else {
                    None
                },
                None => None,
            },
        }),
{
    match upstream {
        Some(u) => Some(u),
        None => match default_branch {
            Some(d) => {
                if str_eq(d, branch) {
                    None
                } else {
                    Some(to_owned_string(d))
                }
            },
            None => None,
        },
    }
}

/// Whether some line, trimmed, is exactly `id`.
pub fn lines_contain(lines: &Vec<String>, id: &str) -> (r: bool)
    ensures
        r == exists|i: int| 0 <= i < lines@.len() && trim(#[trigger] lines@[i]@) == id@,
{
    let mut i: usize = 0;
    while i < lines.len()
        invariant
            i <= lines@.len(),
            forall|m: int| 0 <= m < i ==> trim(#[trigger] lines@[m]@) != id@,
        decreases lines@.len() - i,
    {
        let t = trimmed(lines[i].as_str());
        if str_eq(t.as_str(), id) {
            return true;
        }
        i = i + 1;
    }
    false
}

/// The branch model for listed branch names and the checked-out branch: names
/// sorted (each once), no counts yet; or the listing error with no branches.
pub fn branch_info_from(listing: Result<(Vec<String>, Option<String>), String>) -> (r: crate::git::BranchInfo)
    ensures
        r.hovered is None,
        r.selected is None,
        match listing {
            Ok((names, current)) => r.current == current && r.status is None
                && crate::branches::branch_names(r.branches@) == sort_unique(
                crate::format::string_views(names@),
            ) && forall|i: int|
                0 <= i < r.branches@.len() ==> (#[trigger] r.branches@[i]).ahead is None
                    && r.branches@[i].behind is None && !r.branches@[i].is_remote
                    && r.branches@[i].remote_ref is None,
            Err(e) => r.branches@.len() == 0 && r.current is None && r.status == Some(e),
        },
{
    match listing {
        Err(e) => crate::git::BranchInfo {
            branches: Vec::new(),
            current: None,
            status: Some(e),
            hovered: None,
            selected: None,
        },
        Ok((names, current)) => {
            let ghost views = crate::format::string_views(names@);
            let mut sorted: Vec<String> = Vec::new();
            let mut rest = names;
            let count = rest.len();
            let mut i: usize = 0;
            proof {
                assert(views.take(0) =~= Seq::<Seq<char>>::empty());
                assert(crate::format::string_views(sorted@) =~= Seq::<Seq<char>>::empty());
            }
            while rest.len() > 0
                invariant
                    i + rest@.len() == count,
                    count == views.len(),
                    crate::format::string_views(rest@) == views.skip(i as int),
                    crate::format::string_views(sorted@) == sort_unique(views.take(i as int)),
                decreases rest@.len(),
            {
                let ghost before = crate::format::string_views(rest@);
                let name = rest.remove(0);
                proof {
                    assert(crate::format::string_views(rest@) =~= before.drop_first());
                    assert(before[0] == name@);
                    assert(views.skip(i as int).drop_first() =~= views.skip(i + 1));
                    assert(views.take(i + 1).drop_last() =~= views.take(i as int));
                    assert(views.take(i + 1).last() == name@);
                }
                insert_name(&mut sorted, name);
                i = i + 1;
            }
            proof {
                assert(views.take(i as int) =~= views);
            }
            let mut branches: Vec<crate::git::BranchSummary> = Vec::new();
            let ghost target = crate::format::string_views(sorted@);
            let mut left = sorted;
            let total = left.len();
            let mut k: usize = 0;
            while left.len() > 0
                invariant
                    k + left@.len() == total,
                    total == target.len(),
                    crate::format::string_views(left@) == target.skip(k as int),
                    crate::branches::branch_names(branches@) == target.take(k as int),
                    forall|m: int|
                        0 <= m < branches@.len() ==> (#[trigger] branches@[m]).ahead is None
                            && branches@[m].behind is None && !branches@[m].is_remote
                            && branches@[m].remote_ref is None,
                decreases left@.len(),
            {
                let ghost before = crate::format::string_views(left@);
                let name = left.remove(0);
                proof {
                    assert(crate::format::string_views(left@) =~= before.drop_first());
                    assert(before[0] == name@);
                    assert(target.skip(k as int).drop_first() =~= target.skip(k + 1));
                }
                let ghost names_before = crate::branches::branch_names(branches@);
                branches.push(
                    crate::git::BranchSummary {
                        name,
                        ahead: None,
                        behind: None,
                        is_remote: false,
                        remote_ref: None,
                    },
                );
                proof {
                    assert(target.skip(k as int)[0] == target[k as int]);
                    assert(crate::branches::branch_names(branches@) =~= names_before.push(
                        branches@.last().name@,
                    ));
                    assert(target.take(k + 1) =~= target.take(k as int).push(target[k as int]));
                    assert(crate::branches::branch_names(branches@) =~= target.take(k + 1));
                }
                k = k + 1;
            }
            proof {
                assert(target.take(k as int) =~= target);
            }
            crate::git::BranchInfo { branches, current, status: None, hovered: None, selected: None }
        },
    }
}

/// The first line that is not blank, trimmed (the first remote of `git remote`).
pub fn first_nonblank_line(lines: &Vec<String>) -> (r: Option<String>)
    ensures
        match r {
            Some(name) => exists|i: int|
                0 <= i < lines@.len() && name@ == trim(#[trigger] lines@[i]@) && name@.len() > 0
                    && forall|m: int| 0 <= m < i ==> trim(#[trigger] lines@[m]@).len() == 0,
            None => forall|i: int| 0 <= i < lines@.len() ==> trim(#[trigger] lines@[i]@).len() == 0,
        },
{
    let mut i: usize = 0;
    while i < lines.len()
        invariant
            i <= lines@.len(),
            forall|m: int| 0 <= m < i ==> trim(#[trigger] lines@[m]@).len() == 0,
        decreases lines@.len() - i,
    {
        let t = trimmed(lines[i].as_str());
        if !t.as_str().is_empty() {
            return Some(t);
        }
        i = i + 1;
    }
    None
}

} // verus!
