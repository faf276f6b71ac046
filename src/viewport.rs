//! Which rows of a list are visible, given its length, the focused row and the height.
use vstd::prelude::*;

verus! {

/// The focused row, clamped into a list of `n > 0` rows (no focus means the first row).
pub open spec fn clamped_focus(n: int, focus: Option<usize>) -> int {
    let f = match focus {
        Some(i) => i as int,
        None => 0,
    };
    if f < n - 1 {
        f
    } else {
        n - 1
    }
}

/// The half-open window `[start, end)` of rows to show: everything when the list
/// fits, otherwise `h` rows with the focused row centred as far as the edges allow.
pub open spec fn spec_viewport(n: int, focus: Option<usize>, h: int) -> (int, int) {
    if n == 0 || h == 0 {
        (0, 0)
    } else if n <= h {
        (0, n)
    } else {
        let centred = clamped_focus(n, focus) - h / 2;
        let low = if centred < 0 {
            0
        } else {
            centred
        };
        let start = if low < n - h {
            low
        } else {
            n - h
        };
        (start, start + h)
    }
}

/// The rows of a list of `len` rows that fit in `height` lines, around `hovered`.
pub fn viewport(len: usize, hovered: Option<usize>, height: u16) -> (r: (usize, usize))
    ensures
        (r.0 as int, r.1 as int) == spec_viewport(len as int, hovered, height as int),
{
    if len == 0 || height == 0 {
        return (0, 0);
    }
    let visible = height as usize;
    let wanted = match hovered {
        Some(i) => i,
        None => 0,
    };
    let focus = if wanted < len - 1 {
        wanted
    } else {
        len - 1
    };
    if len <= visible {
        return (0, len);
    }
    let max_start = len - visible;
    let half = visible / 2;
    let low = if focus >= half {
        focus - half
    } else {
        0
    };
    let start = if low < max_start {
        low
    } else {
        max_start
    };
    (start, start + visible)
}

/// The window holds `min(n, h)` rows, is the whole list when it fits, stays inside
/// the list, and contains the (clamped) focused row whenever the list is not empty.
pub proof fn lemma_viewport_window(n: nat, focus: Option<usize>, h: nat)
    requires
        h > 0,
    ensures
        spec_viewport(n as int, focus, h as int).1 - spec_viewport(n as int, focus, h as int).0
            == (if n < h {
            n
        } else {
            h
        }),
        n <= h ==> spec_viewport(n as int, focus, h as int) == (0int, n as int),
        0 <= spec_viewport(n as int, focus, h as int).0 <= spec_viewport(n as int, focus, h as int).1
            <= n,
        n > 0 ==> spec_viewport(n as int, focus, h as int).0 <= clamped_focus(n as int, focus)
            < spec_viewport(n as int, focus, h as int).1,
{
}

} // verus!
