//! Character-level helpers shared by the editors and the decoders.
//!
//! Strings are viewed as sequences of `char`; byte positions inside a string
//! are related to character positions through `byte_offset`.
use vstd::prelude::*;
use vstd::utf8::*;

verus! {

/// Number of bytes that UTF-8 spends on `c`.
pub open spec fn char_width(c: char) -> nat {
    if (c as u32) <= 0x7f {
        1
    } else if (c as u32) <= 0x7ff {
        2
    } else if (c as u32) <= 0xffff {
        3
    } else {
        4
    }
}

/// Number of bytes in the UTF-8 encoding of `s`.
pub open spec fn byte_len(s: Seq<char>) -> nat
    decreases s.len(),
{
    if s.len() == 0 {
        0
    } else {
        byte_len(s.drop_last()) + char_width(s.last())
    }
}

/// Byte position at which the character with index `k` starts.
pub open spec fn byte_offset(s: Seq<char>, k: int) -> nat {
    byte_len(s.take(k))
}

/// `b` is a byte position that falls between two characters of `s` (or at an end).
pub open spec fn is_boundary(s: Seq<char>, b: int) -> bool {
    exists|k: int| 0 <= k <= s.len() && byte_offset(s, k) == b
}

/// The character index that sits at byte position `b`, when `b` is a boundary.
pub open spec fn char_index(s: Seq<char>, b: int) -> int {
    choose|k: int| 0 <= k <= s.len() && byte_offset(s, k) == b
}

pub proof fn lemma_byte_len_single(c: char)
    ensures
        byte_len(seq![c]) == char_width(c),
{
    assert(seq![c].drop_last() =~= Seq::<char>::empty());
    reveal_with_fuel(byte_len, 2);
}

pub proof fn lemma_byte_len_concat(a: Seq<char>, b: Seq<char>)
    ensures
        byte_len(a + b) == byte_len(a) + byte_len(b),
    decreases b.len(),
{
    if b.len() == 0 {
        assert(a + b =~= a);
    } else {
        assert((a + b).drop_last() =~= a + b.drop_last());
        assert((a + b).last() == b.last());
        lemma_byte_len_concat(a, b.drop_last());
    }
}

pub proof fn lemma_offset_step(s: Seq<char>, k: int)
    requires
        0 <= k < s.len(),
    ensures
        byte_offset(s, k + 1) == byte_offset(s, k) + char_width(s[k]),
{
    assert(s.take(k + 1).drop_last() =~= s.take(k));
}

pub proof fn lemma_offset_full(s: Seq<char>)
    ensures
        byte_offset(s, s.len() as int) == byte_len(s),
{
    assert(s.take(s.len() as int) =~= s);
}

pub proof fn lemma_offset_mono(s: Seq<char>, i: int, j: int)
    requires
        0 <= i <= j <= s.len(),
    ensures
        byte_offset(s, i) + (j - i) <= byte_offset(s, j),
    decreases j - i,
{
    if i < j {
        lemma_offset_mono(s, i, j - 1);
        lemma_offset_step(s, j - 1);
    }
}

pub proof fn lemma_offset_bounded(s: Seq<char>, k: int)
    requires
        0 <= k <= s.len(),
    ensures
        byte_offset(s, k) <= byte_len(s),
{
    lemma_offset_mono(s, k, s.len() as int);
    lemma_offset_full(s);
}

/// The character index of a boundary is the one that produced it.
pub proof fn lemma_char_index(s: Seq<char>, k: int)
    requires
        0 <= k <= s.len(),
    ensures
        is_boundary(s, byte_offset(s, k) as int),
        char_index(s, byte_offset(s, k) as int) == k,
{
    let b = byte_offset(s, k) as int;
    assert(0 <= k <= s.len() && byte_offset(s, k) == b);
    let j = char_index(s, b);
    if j < k {
        lemma_offset_mono(s, j, k);
    } else if j > k {
        lemma_offset_mono(s, k, j);
    }
}

/// Offsets up to the edit point are untouched by an insertion.
pub proof fn lemma_offset_insert(s: Seq<char>, k: int, c: char)
    requires
        0 <= k <= s.len(),
    ensures
        byte_offset(s.insert(k, c), k) == byte_offset(s, k),
        byte_offset(s.insert(k, c), k + 1) == byte_offset(s, k) + char_width(c),
        byte_len(s.insert(k, c)) == byte_len(s) + char_width(c),
{
    let t = s.insert(k, c);
    assert(t.take(k) =~= s.take(k));
    lemma_offset_step(t, k);
    assert(t =~= s.take(k) + seq![c] + s.skip(k));
    assert(s =~= s.take(k) + s.skip(k));
    lemma_byte_len_concat(s.take(k) + seq![c], s.skip(k));
    lemma_byte_len_concat(s.take(k), seq![c]);
    lemma_byte_len_concat(s.take(k), s.skip(k));
    lemma_byte_len_single(c);
}

/// Offsets up to the edit point are untouched by a removal.
pub proof fn lemma_offset_remove(s: Seq<char>, k: int)
    requires
        0 <= k < s.len(),
    ensures
        byte_offset(s.remove(k), k) == byte_offset(s, k),
        byte_len(s.remove(k)) + char_width(s[k]) == byte_len(s),
{
    let t = s.remove(k);
    assert(t.take(k) =~= s.take(k));
    assert(t =~= s.take(k) + s.skip(k + 1));
    assert(s =~= s.take(k + 1) + s.skip(k + 1));
    lemma_byte_len_concat(s.take(k), s.skip(k + 1));
    lemma_byte_len_concat(s.take(k + 1), s.skip(k + 1));
    lemma_offset_step(s, k);
}

proof fn lemma_scalar_width(c: char)
    ensures
        encode_scalar(c as u32).len() == char_width(c),
{
    char_is_scalar(c);
}

/// `byte_len` agrees with the length of the UTF-8 encoding used for `str`.
pub proof fn lemma_byte_len_encode(s: Seq<char>)
    ensures
        encode_utf8(s).len() == byte_len(s),
    decreases s.len(),
{
    if s.len() > 0 {
        lemma_byte_len_encode(s.drop_first());
        lemma_scalar_width(s[0]);
        assert(s =~= seq![s[0]] + s.drop_first());
        lemma_byte_len_concat(seq![s[0]], s.drop_first());
        lemma_byte_len_single(s[0]);
    }
}

/// Number of bytes that UTF-8 spends on `c`.
pub fn char_len_utf8(c: char) -> (r: usize)
    ensures
        r == char_width(c),
{
    let v = c as u32;
    if v <= 0x7f {
        1
    } else if v <= 0x7ff {
        2
    } else if v <= 0xffff {
        3
    } else {
        4
    }
}

/// Byte length of a string.
pub fn str_byte_len(s: &str) -> (r: usize)
    requires
        byte_len(s@) <= usize::MAX,
    ensures
        r == byte_len(s@),
{
    proof {
        lemma_byte_len_encode(s@);
    }
    s.len()
}

/// The characters of `s`, in order.
pub fn chars_of(s: &str) -> (r: Vec<char>)
    ensures
        r@ == s@,
{
    let mut out: Vec<char> = Vec::new();
    for c in it: s.chars()
        invariant
            out@ == it.seq().take(it.index() as int),
    {
        out.push(c);
    }
    out
}

/// Relies on `String::push`: appends one character at the end.
#[verifier::external_body]
pub(crate) fn push_char(s: &mut String, c: char)
    ensures
        final(s)@ == old(s)@.push(c),
{
    s.push(c);
}

/// Relies on `String::insert`: puts `c` at byte position `idx`, which starts a character
/// or is the end of the string.
#[verifier::external_body]
pub(crate) fn insert_at(s: &mut String, idx: usize, c: char)
    requires
        is_boundary(old(s)@, idx as int),
        byte_len(old(s)@) + char_width(c) <= isize::MAX,
    ensures
        final(s)@ == old(s)@.insert(char_index(old(s)@, idx as int), c),
{
    s.insert(idx, c);
}

/// Relies on `String::remove`: takes out the character that starts at byte position `idx`.
#[verifier::external_body]
pub(crate) fn remove_at(s: &mut String, idx: usize) -> (r: char)
    requires
        is_boundary(old(s)@, idx as int),
        idx < byte_len(old(s)@),
    ensures
        r == old(s)@[char_index(old(s)@, idx as int)],
        final(s)@ == old(s)@.remove(char_index(old(s)@, idx as int)),
{
    s.remove(idx)
}

/// A string holding the characters `chars[from..to]`.
pub fn string_from_range(chars: &Vec<char>, from: usize, to: usize) -> (r: String)
    requires
        from <= to <= chars@.len(),
    ensures
        r@ == chars@.subrange(from as int, to as int),
{
    let mut out = String::new();
    let mut i: usize = from;
    while i < to
        invariant
            from <= i <= to <= chars@.len(),
            out@ == chars@.subrange(from as int, i as int),
        decreases to - i,
    {
        push_char(&mut out, chars[i]);
        i += 1;
        assert(out@ =~= chars@.subrange(from as int, i as int));
    }
    out
}

/// Finds the last character boundary at or before byte position `cursor`:
/// returns its character index and its byte position.
pub fn locate(chars: &Vec<char>, cursor: usize) -> (r: (usize, usize))
    requires
        byte_len(chars@) <= usize::MAX,
    ensures
        r.0 <= chars@.len(),
        r.1 == byte_offset(chars@, r.0 as int),
        r.1 <= cursor,
        r.0 < chars@.len() ==> byte_offset(chars@, r.0 + 1) > cursor,
        is_boundary(chars@, cursor as int) <==> r.1 == cursor,
{
    let mut k: usize = 0;
    let mut off: usize = 0;
    proof {
        assert(chars@.take(0) =~= Seq::<char>::empty());
    }
    while k < chars.len()
        invariant
            k <= chars@.len(),
            off == byte_offset(chars@, k as int),
            off <= cursor,
            byte_len(chars@) <= usize::MAX,
        ensures
            k <= chars@.len(),
            off == byte_offset(chars@, k as int),
            off <= cursor,
            k < chars@.len() ==> byte_offset(chars@, k + 1) > cursor,
        decreases chars@.len() - k,
    {
        let w = char_len_utf8(chars[k]);
        proof {
            lemma_offset_step(chars@, k as int);
            lemma_offset_bounded(chars@, k as int + 1);
        }
        if off + w > cursor {
            break;
        }
        off = off + w;
        k = k + 1;
    }
    proof {
        if off != cursor {
            if is_boundary(chars@, cursor as int) {
                let j = char_index(chars@, cursor as int);
                if j <= k {
                    lemma_offset_mono(chars@, j, k as int);
                } else {
                    lemma_offset_mono(chars@, k as int + 1, j);
                }
            }
        } else {
            lemma_char_index(chars@, k as int);
        }
    }
    (k, off)
}

/// The characters with the Unicode `White_Space` property.
pub open spec fn is_ws(c: char) -> bool {
    let v = c as u32;
    ||| 0x9 <= v <= 0xd
    ||| v == 0x20
    ||| v == 0x85
    ||| v == 0xa0
    ||| v == 0x1680
    ||| 0x2000 <= v <= 0x200a
    ||| v == 0x2028
    ||| v == 0x2029
    ||| v == 0x202f
    ||| v == 0x205f
    ||| v == 0x3000
}

/// Whether `c` is whitespace.
pub fn is_whitespace(c: char) -> (r: bool)
    ensures
        r == is_ws(c),
{
    let v = c as u32;
    (0x9 <= v && v <= 0xd) || v == 0x20 || v == 0x85 || v == 0xa0 || v == 0x1680 || (0x2000 <= v
        && v <= 0x200a) || v == 0x2028 || v == 0x2029 || v == 0x202f || v == 0x205f || v == 0x3000
}

/// `s` without its leading whitespace.
pub open spec fn trim_start(s: Seq<char>) -> Seq<char>
    decreases s.len(),
{
    if s.len() > 0 && is_ws(s[0]) {
        trim_start(s.drop_first())
    } else {
        s
    }
}

/// `s` without its trailing whitespace.
pub open spec fn trim_end(s: Seq<char>) -> Seq<char>
    decreases s.len(),
{
    if s.len() > 0 && is_ws(s.last()) {
        trim_end(s.drop_last())
    } else {
        s
    }
}

/// `s` without leading or trailing whitespace.
pub open spec fn trim(s: Seq<char>) -> Seq<char> {
    trim_end(trim_start(s))
}

/// The range `[lo, hi)` of `s[from..to]` that is left after trimming whitespace.
pub fn trim_range(s: &Vec<char>, from: usize, to: usize) -> (r: (usize, usize))
    requires
        from <= to <= s@.len(),
    ensures
        from <= r.0 <= r.1 <= to,
        s@.subrange(r.0 as int, r.1 as int) == trim(s@.subrange(from as int, to as int)),
{
    let mut lo = from;
    while lo < to && is_whitespace(s[lo])
        invariant
            from <= lo <= to <= s@.len(),
            trim_start(s@.subrange(lo as int, to as int)) == trim_start(
                s@.subrange(from as int, to as int),
            ),
        decreases to - lo,
    {
        assert(s@.subrange(lo as int, to as int).drop_first() =~= s@.subrange(
            lo + 1,
            to as int,
        ));
        lo = lo + 1;
    }
    proof {
        if lo < to {
            assert(s@.subrange(lo as int, to as int)[0] == s@[lo as int]);
        }
    }
    let mut hi = to;
    while hi > lo && is_whitespace(s[hi - 1])
        invariant
            from <= lo <= hi <= to <= s@.len(),
            trim_end(s@.subrange(lo as int, hi as int)) == trim(s@.subrange(from as int, to as int)),
        decreases hi - lo,
    {
        assert(s@.subrange(lo as int, hi as int).drop_last() =~= s@.subrange(
            lo as int,
            hi - 1,
        ));
        hi = hi - 1;
    }
    proof {
        if hi > lo {
            assert(s@.subrange(lo as int, hi as int).last() == s@[hi - 1]);
        }
    }
    (lo, hi)
}

/// The first index at or after `i` where `pat` occurs in `s`.
pub open spec fn find_from(s: Seq<char>, pat: Seq<char>, i: int) -> Option<int>
    decreases s.len() + 1 - i,
{
    if i < 0 || i + pat.len() > s.len() {
        None
    } else if s.subrange(i, i + pat.len()) == pat {
        Some(i)
    } else {
        find_from(s, pat, i + 1)
    }
}

/// A found occurrence lies inside `s` and matches `pat`.
pub proof fn lemma_find_from(s: Seq<char>, pat: Seq<char>, j: int)
    ensures
        find_from(s, pat, j) matches Some(i) ==> j <= i && i + pat.len() <= s.len()
            && s.subrange(i, i + pat.len()) == pat,
    decreases s.len() + 1 - j,
{
    if !(j < 0 || j + pat.len() > s.len()) && s.subrange(j, j + pat.len()) != pat {
        lemma_find_from(s, pat, j + 1);
    }
}

/// Where `pat` first occurs in `s[from..to]`, as an index into `s`.
pub fn find_in(s: &Vec<char>, pat: &Vec<char>, from: usize, to: usize) -> (r: Option<usize>)
    requires
        from <= to <= s@.len(),
    ensures
        r matches Some(i) ==> from <= i && find_from(s@.subrange(from as int, to as int), pat@, 0)
            == Some(i - from),
        r is None ==> find_from(s@.subrange(from as int, to as int), pat@, 0) is None,
{
    let ghost t = s@.subrange(from as int, to as int);
    let mut i = from;
    while i <= to && to - i >= pat.len()
        invariant
            from <= i,
            to <= s@.len(),
            t == s@.subrange(from as int, to as int),
            find_from(t, pat@, i - from) == find_from(t, pat@, 0),
        decreases to + 1 - i,
    {
        let mut j: usize = 0;
        let mut same = true;
        while j < pat.len()
            invariant
                i + pat@.len() <= to <= s@.len(),
                j <= pat@.len(),
                same == (forall|m: int| 0 <= m < j ==> s@[i + m] == pat@[m]),
            decreases pat@.len() - j,
        {
            if s[i + j] != pat[j] {
                same = false;
            }
            j = j + 1;
        }
        proof {
            let window = t.subrange(i - from, i - from + pat@.len());
            assert forall|m: int| 0 <= m < pat@.len() implies window[m] == s@[i + m] by {}
            if same {
                assert(window =~= pat@);
            } else {
                let m = choose|m: int| 0 <= m < pat@.len() && s@[i + m] != pat@[m];
                assert(window[m] != pat@[m]);
            }
        }
        if same {
            return Some(i);
        }
        i = i + 1;
    }
    None
}

/// `a` comes strictly before `b` in lexicographic order of code points.
pub open spec fn seq_lt(a: Seq<char>, b: Seq<char>) -> bool
    decreases a.len(),
{
    if a.len() == 0 {
        b.len() > 0
    } else if b.len() == 0 {
        false
    } else if a[0] != b[0] {
        (a[0] as u32) < (b[0] as u32)
    } else {
        seq_lt(a.drop_first(), b.drop_first())
    }
}

/// Whether `a` sorts strictly before `b`.
pub fn str_lt(a: &str, b: &str) -> (r: bool)
    ensures
        r == seq_lt(a@, b@),
{
    let x = chars_of(a);
    let y = chars_of(b);
    let mut i: usize = 0;
    proof {
        assert(x@.skip(0) =~= x@);
        assert(y@.skip(0) =~= y@);
    }
    while i < x.len() && i < y.len() && x[i] == y[i]
        invariant
            i <= x@.len(),
            i <= y@.len(),
            seq_lt(x@.skip(i as int), y@.skip(i as int)) == seq_lt(a@, b@),
        decreases x@.len() - i,
    {
        assert(x@.skip(i as int).drop_first() =~= x@.skip(i + 1));
        assert(y@.skip(i as int).drop_first() =~= y@.skip(i + 1));
        i = i + 1;
    }
    if i == x.len() {
        i < y.len()
    } else if i == y.len() {
        false
    } else {
        let cx: char = x[i];
        let cy: char = y[i];
        (cx as u32) < (cy as u32)
    }
}

/// The first index at which `x` occurs in `s`.
pub open spec fn position_of(s: Seq<Seq<char>>, x: Seq<char>) -> Option<int>
    decreases s.len(),
{
    if s.len() == 0 {
        None
    } else {
        match position_of(s.drop_last(), x) {
            Some(i) => Some(i),
            None => if s.last() == x {
                Some(s.len() - 1)
            } else {
                None
            },
        }
    }
}

/// A position is a valid index holding `x`.
pub proof fn lemma_position_bound(s: Seq<Seq<char>>, x: Seq<char>)
    ensures
        position_of(s, x) matches Some(i) ==> 0 <= i < s.len() && s[i] == x,
    decreases s.len(),
{
    if s.len() > 0 {
        lemma_position_bound(s.drop_last(), x);
    }
}

/// `x` has a position exactly when it occurs.
pub proof fn lemma_position_contains(s: Seq<Seq<char>>, x: Seq<char>)
    ensures
        (position_of(s, x) is Some) == s.contains(x),
    decreases s.len(),
{
    if s.len() > 0 {
        lemma_position_contains(s.drop_last(), x);
        lemma_position_bound(s, x);
        if s.contains(x) && position_of(s.drop_last(), x) is None {
            let j = choose|j: int| 0 <= j < s.len() && s[j] == x;
            if j < s.len() - 1 {
                assert(s.drop_last()[j] == x);
            }
        }
    }
}

/// The position found in a prefix that ends with the first occurrence is the
/// position in the whole sequence.
pub proof fn lemma_position_prefix(s: Seq<Seq<char>>, x: Seq<char>, n: int)
    requires
        0 < n <= s.len(),
        position_of(s.take(n - 1), x) is None,
        s[n - 1] == x,
    ensures
        position_of(s, x) == Some(n - 1),
    decreases s.len(),
{
    if n < s.len() {
        assert(s.drop_last().take(n - 1) =~= s.take(n - 1));
        assert(s.drop_last()[n - 1] == x);
        lemma_position_prefix(s.drop_last(), x, n);
    } else {
        assert(s.take(n - 1) =~= s.drop_last());
    }
}

/// Whether two strings hold the same characters.
pub fn str_eq(a: &str, b: &str) -> (r: bool)
    ensures
        r == (a@ == b@),
{
    let x = chars_of(a);
    let y = chars_of(b);
    if x.len() != y.len() {
        return false;
    }
    let mut i: usize = 0;
    while i < x.len()
        invariant
            x@ == a@,
            y@ == b@,
            x@.len() == y@.len(),
            i <= x@.len(),
            forall|m: int| 0 <= m < i ==> x@[m] == y@[m],
        decreases x@.len() - i,
    {
        let cx: char = x[i];
        let cy: char = y[i];
        if cx != cy {
            assert(a@[i as int] != b@[i as int]);
            return false;
        }
        i = i + 1;
    }
    assert(x@ =~= y@);
    true
}

/// `s` without leading or trailing whitespace, as a new string.
pub fn trimmed(s: &str) -> (r: String)
    ensures
        r@ == trim(s@),
{
    let cs = chars_of(s);
    let (lo, hi) = trim_range(&cs, 0, cs.len());
    assert(cs@.subrange(0, cs@.len() as int) =~= cs@);
    string_from_range(&cs, lo, hi)
}

} // verus!
