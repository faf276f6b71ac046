//! Building display strings: decimals, concatenation, truncation and padding.
use vstd::prelude::*;
use crate::text::{byte_len, chars_of, push_char};

verus! {

/// The decimal digit `d`.
pub open spec fn digit_char(d: nat) -> char {
    if d == 0 {
        '0'
    } else if d == 1 {
        '1'
    } else if d == 2 {
        '2'
    } else if d == 3 {
        '3'
    } else if d == 4 {
        '4'
    } else if d == 5 {
        '5'
    } else if d == 6 {
        '6'
    } else if d == 7 {
        '7'
    } else if d == 8 {
        '8'
    } else {
        '9'
    }
}

/// The decimal representation of `n`, without leading zeros.
pub open spec fn dec_str(n: nat) -> Seq<char>
    decreases n,
{
    if n < 10 {
        seq![digit_char(n)]
    } else {
        dec_str(n / 10).push(digit_char(n % 10))
    }
}

fn digit(d: usize) -> (r: char)
    requires
        d < 10,
    ensures
        r == digit_char(d as nat),
{
    match d {
        0 => '0',
        1 => '1',
        2 => '2',
        3 => '3',
        4 => '4',
        5 => '5',
        6 => '6',
        7 => '7',
        8 => '8',
        _ => '9',
    }
}

/// Appends the decimal representation of `n`.
pub fn push_decimal(out: &mut String, n: usize)
    ensures
        final(out)@ == old(out)@ + dec_str(n as nat),
    decreases n,
{
    if n >= 10 {
        push_decimal(out, n / 10);
    }
    push_char(out, digit(n % 10));
    proof {
        if n >= 10 {
            assert(old(out)@ + dec_str(n as nat) =~= old(out)@ + dec_str((n / 10) as nat) + seq![digit_char((n % 10) as nat)]);
        } else {
            assert(old(out)@ + dec_str(n as nat) =~= old(out)@.push(digit_char(n as nat)));
        }
    }
}

/// Appends the characters of `t`.
pub fn push_str(out: &mut String, t: &str)
    ensures
        final(out)@ == old(out)@ + t@,
{
    let cs = chars_of(t);
    let mut i: usize = 0;
    while i < cs.len()
        invariant
            i <= cs@.len(),
            cs@ == t@,
            out@ == old(out)@ + cs@.take(i as int),
        decreases cs@.len() - i,
    {
        push_char(out, cs[i]);
        i = i + 1;
        assert(out@ =~= old(out)@ + cs@.take(i as int));
    }
    assert(cs@.take(i as int) =~= cs@);
}

/// A fresh string holding the characters of `t`.
pub fn to_owned_string(t: &str) -> (r: String)
    ensures
        r@ == t@,
{
    let mut out = String::new();
    push_str(&mut out, t);
    assert(out@ =~= t@);
    out
}

/// `n` spaces.
pub open spec fn spaces(n: nat) -> Seq<char> {
    Seq::new(n, |i: int| ' ')
}

/// Number of characters that a line shows for `text`.
pub fn visible_width(text: &str) -> (r: usize)
    ensures
        r == text@.len(),
{
    chars_of(text).len()
}

/// `text` cut to `max_width` characters, the last one replaced by an ellipsis
/// when something was cut.
pub open spec fn spec_truncate(text: Seq<char>, max_width: nat) -> Seq<char> {
    if max_width == 0 {
        seq![]
    } else if text.len() <= max_width {
        text
    } else if max_width == 1 {
        seq!['…']
    } else {
        text.take(max_width - 1).push('…')
    }
}

/// Fits `text` into `max_width` characters.
pub fn truncate_with_ellipsis(text: &str, max_width: usize) -> (r: String)
    ensures
        r@ == spec_truncate(text@, max_width as nat),
{
    let cs = chars_of(text);
    let mut out = String::new();
    if max_width == 0 {
        return out;
    }
    if cs.len() <= max_width {
        push_str(&mut out, text);
        assert(out@ =~= text@);
        return out;
    }
    let mut i: usize = 0;
    while i + 1 < max_width
        invariant
            i < max_width,
            max_width < cs@.len(),
            out@ == cs@.take(i as int),
        decreases max_width - i,
    {
        push_char(&mut out, cs[i]);
        i = i + 1;
        assert(out@ =~= cs@.take(i as int));
    }
    push_char(&mut out, '…');
    proof {
        if max_width == 1 {
            assert(out@ =~= seq!['…']);
        }
    }
    out
}

/// Whether the UTF-8 encoding of `s` is longer than `limit` bytes.
fn longer_in_bytes(s: &str, limit: usize) -> (r: bool)
    ensures
        r == (byte_len(s@) > limit),
{
    let cs = chars_of(s);
    let mut i: usize = 0;
    let mut total: usize = 0;
    proof {
        assert(cs@.take(0) =~= Seq::<char>::empty());
    }
    while i < cs.len()
        invariant
            i <= cs@.len(),
            cs@ == s@,
            total == byte_len(cs@.take(i as int)),
            total <= limit,
        decreases cs@.len() - i,
    {
        let w = crate::text::char_len_utf8(cs[i]);
        proof {
            crate::text::lemma_offset_step(cs@, i as int);
        }
        if w > limit - total {
            proof {
                crate::text::lemma_offset_bounded(cs@, i + 1);
                crate::text::lemma_offset_full(cs@);
            }
            return true;
        }
        total = total + w;
        i = i + 1;
    }
    proof {
        assert(cs@.take(i as int) =~= cs@);
    }
    false
}

/// A branch label cut (when longer than `width` bytes) and padded to `width` characters.
pub open spec fn spec_pad_branch(label: Seq<char>, width: nat) -> Seq<char> {
    let keep: int = if width == 0 {
        0
    } else {
        width - 1
    };
    let cut = if byte_len(label) > width {
        (if keep < label.len() {
            label.take(keep)
        } else {
            label
        }).push('…')
    } else {
        label
    };
    if cut.len() < width {
        cut + spaces((width - cut.len()) as nat)
    } else {
        cut
    }
}

/// Fits a branch label into a column of `width` characters.
pub fn pad_branch(label: &str, width: usize) -> (r: String)
    ensures
        r@ == spec_pad_branch(label@, width as nat),
{
    let cs = chars_of(label);
    let mut out = String::new();
    if longer_in_bytes(label, width) {
        let keep = if width == 0 {
            0
        } else {
            width - 1
        };
        let keep = if keep < cs.len() {
            keep
        } else {
            cs.len()
        };
        let mut i: usize = 0;
        while i < keep
            invariant
                i <= keep <= cs@.len(),
                out@ == cs@.take(i as int),
            decreases keep - i,
        {
            push_char(&mut out, cs[i]);
            i = i + 1;
            assert(out@ =~= cs@.take(i as int));
        }
        push_char(&mut out, '…');
        proof {
            if keep == cs@.len() {
                assert(cs@.take(keep as int) =~= cs@);
            }
        }
    } else {
        push_str(&mut out, label);
        assert(out@ =~= label@);
    }
    let ghost cut = out@;
    let n = visible_width(out.as_str());
    let mut k = n;
    while k < width
        invariant
            n <= k <= width || (n >= width && k == n),
            cut.len() == n,
            out@ == cut + spaces((k - n) as nat),
        decreases width - k,
    {
        push_char(&mut out, ' ');
        k = k + 1;
        assert(out@ =~= cut + spaces((k - n) as nat));
    }
    proof {
        if n >= width {
            assert(out@ =~= cut);
        }
    }
    out
}

/// The parts joined with `sep` between neighbours.
pub open spec fn join(parts: Seq<Seq<char>>, sep: Seq<char>) -> Seq<char>
    decreases parts.len(),
{
    if parts.len() == 0 {
        seq![]
    } else if parts.len() == 1 {
        parts[0]
    } else {
        join(parts.drop_last(), sep) + sep + parts.last()
    }
}

/// The text of each string.
pub open spec fn string_views(s: Seq<String>) -> Seq<Seq<char>> {
    s.map_values(|x: String| x@)
}

/// Appends the strings joined with `sep`.
pub fn push_joined(out: &mut String, parts: &[String], sep: &str)
    ensures
        final(out)@ == old(out)@ + join(string_views(parts@), sep@),
{
    let ghost views = string_views(parts@);
    let mut i: usize = 0;
    proof {
        assert(old(out)@ + join(views.take(0), sep@) =~= old(out)@);
    }
    while i < parts.len()
        invariant
            i <= parts@.len(),
            views == string_views(parts@),
            out@ == old(out)@ + join(views.take(i as int), sep@),
        decreases parts@.len() - i,
    {
        let ghost before = out@;
        if i > 0 {
            push_str(out, sep);
        }
        push_str(out, parts[i].as_str());
        proof {
            let t = views.take(i + 1);
            assert(t.drop_last() =~= views.take(i as int));
            assert(t.last() == parts@[i as int]@);
            if i == 0 {
                assert(t.len() == 1);
            }
            assert(out@ =~= old(out)@ + join(t, sep@));
        }
        i = i + 1;
    }
    proof {
        assert(views.take(i as int) =~= views);
    }
}

/// The label of a commit's branch column: `-` with no branch, else the names
/// joined by commas.
pub fn format_branch_label(branches: &[String]) -> (r: String)
    ensures
        r@ == (if branches@.len() == 0 {
            "-"@
        } else {
            join(string_views(branches@), ","@)
        }),
{
    let mut out = String::new();
    if branches.len() == 0 {
        push_str(&mut out, "-");
    } else {
        push_joined(&mut out, branches, ",");
    }
    assert(out@ =~= (if branches@.len() == 0 {
        "-"@
    } else {
        join(string_views(branches@), ","@)
    }));
    out
}

/// `a` followed by `b`.
pub fn concat2(a: &str, b: &str) -> (r: String)
    ensures
        r@ == a@ + b@,
{
    let mut out = String::new();
    push_str(&mut out, a);
    push_str(&mut out, b);
    assert(out@ =~= a@ + b@);
    out
}

/// `a`, `b` and `c` in a row.
pub fn concat3(a: &str, b: &str, c: &str) -> (r: String)
    ensures
        r@ == a@ + b@ + c@,
{
    let mut out = String::new();
    push_str(&mut out, a);
    push_str(&mut out, b);
    push_str(&mut out, c);
    assert(out@ =~= a@ + b@ + c@);
    out
}

} // verus!
