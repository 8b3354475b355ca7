//! The word boundaries of an ASCII string, as the byte-level fast path finds
//! them: runs of spaces, runs of letters, digits and underscores joined by
//! infix punctuation, CR LF, and single bytes otherwise.
use vstd::prelude::*;

verus! {

pub open spec fn is_digit_byte(b: u8) -> bool {
    0x30 <= b <= 0x39
}

pub open spec fn is_alpha_byte(b: u8) -> bool {
    (0x41 <= b <= 0x5A) || (0x61 <= b <= 0x7A)
}

pub open spec fn is_alnum_byte(b: u8) -> bool {
    is_digit_byte(b) || is_alpha_byte(b)
}

/// Letters, digits and the underscore: the bytes a core run is made of.
pub open spec fn is_core_byte(b: u8) -> bool {
    is_alnum_byte(b) || b == 0x5F
}

/// Whether `b`, between `prev` and `next`, joins them into one run: `.`, `,`,
/// `;` or `'` between digits (WB11/WB12), or `'`, `.` or `:` between letters
/// (WB6/WB7).
pub open spec fn is_infix_byte(b: u8, prev: u8, next: u8) -> bool {
    ||| (b == 0x2E || b == 0x2C || b == 0x3B || b == 0x27) && is_digit_byte(prev)
        && is_digit_byte(next)
    ||| (b == 0x27 || b == 0x2E || b == 0x3A) && is_alpha_byte(prev) && is_alpha_byte(next)
}

/// The end of the run of spaces that continues at `i`.
pub open spec fn space_run(b: Seq<u8>, i: int) -> int
    decreases b.len() - i,
{
    if 0 <= i < b.len() && b[i] == 0x20 {
        space_run(b, i + 1)
    } else {
        i
    }
}

/// The end of the core run that continues at `i` (with `i >= 1`).
pub open spec fn core_run(b: Seq<u8>, i: int) -> int
    decreases b.len() - i,
{
    if 1 <= i < b.len() && (is_core_byte(b[i]) || (i + 1 < b.len() && is_infix_byte(
        b[i],
        b[i - 1],
        b[i + 1],
    ))) {
        core_run(b, i + 1)
    } else {
        i
    }
}

/// The length of the first segment of the ASCII text `b`.
pub open spec fn ascii_fwd_len(b: Seq<u8>) -> int {
    if b[0] == 0x20 {
        space_run(b, 1)
    } else if is_core_byte(b[0]) {
        core_run(b, 1)
    } else if b[0] == 0x0D && b.len() >= 2 && b[1] == 0x0A {
        2
    } else {
        1
    }
}

/// The start of the run of spaces that ends before `st`.
pub open spec fn space_start(b: Seq<u8>, st: int) -> int
    decreases st,
{
    if 0 < st <= b.len() && b[st - 1] == 0x20 {
        space_start(b, st - 1)
    } else {
        st
    }
}

/// The start of the core run that ends before `st` (with `st < b.len()`),
/// read backward: a byte joins if it is core, or infix between the byte
/// before it (itself at the very start) and the byte after it.
pub open spec fn core_start(b: Seq<u8>, st: int) -> int
    decreases st,
{
    if 0 < st < b.len() && (is_core_byte(b[st - 1]) || is_infix_byte(
        b[st - 1],
        if st >= 2 {
            b[st - 2]
        } else {
            b[st - 1]
        },
        b[st],
    )) {
        core_start(b, st - 1)
    } else {
        st
    }
}

/// The start of the last segment of the ASCII text `b`.
pub open spec fn ascii_back_start(b: Seq<u8>) -> int {
    let n = b.len() as int;
    if b[n - 1] == 0x20 {
        space_start(b, n - 1)
    } else if is_core_byte(b[n - 1]) {
        core_start(b, n - 1)
    } else if n >= 2 && b[n - 2] == 0x0D && b[n - 1] == 0x0A {
        n - 2
    } else {
        n - 1
    }
}

/// The bytes of an ASCII character sequence.
pub open spec fn ascii_bytes(s: Seq<char>) -> Seq<u8> {
    s.map_values(|c: char| c as u8)
}

pub proof fn lemma_space_run_bounds(b: Seq<u8>, i: int)
    requires
        0 <= i <= b.len(),
    ensures
        i <= space_run(b, i) <= b.len(),
    decreases b.len() - i,
{
    if i < b.len() && b[i] == 0x20 {
        lemma_space_run_bounds(b, i + 1);
    }
}

pub proof fn lemma_core_run_bounds(b: Seq<u8>, i: int)
    requires
        1 <= i <= b.len(),
    ensures
        i <= core_run(b, i) <= b.len(),
    decreases b.len() - i,
{
    if i < b.len() && (is_core_byte(b[i]) || (i + 1 < b.len() && is_infix_byte(
        b[i],
        b[i - 1],
        b[i + 1],
    ))) {
        lemma_core_run_bounds(b, i + 1);
    }
}

pub proof fn lemma_space_start_bounds(b: Seq<u8>, st: int)
    requires
        0 <= st <= b.len(),
    ensures
        0 <= space_start(b, st) <= st,
    decreases st,
{
    if 0 < st && b[st - 1] == 0x20 {
        lemma_space_start_bounds(b, st - 1);
    }
}

pub proof fn lemma_core_start_bounds(b: Seq<u8>, st: int)
    requires
        0 <= st < b.len(),
    ensures
        0 <= core_start(b, st) <= st,
    decreases st,
{
    if 0 < st && (is_core_byte(b[st - 1]) || is_infix_byte(
        b[st - 1],
        if st >= 2 {
            b[st - 2]
        } else {
            b[st - 1]
        },
        b[st],
    )) {
        lemma_core_start_bounds(b, st - 1);
    }
}

/// A non-empty ASCII text has a first segment of at least one byte.
pub proof fn lemma_ascii_fwd_len_bounds(b: Seq<u8>)
    requires
        b.len() > 0,
    ensures
        1 <= ascii_fwd_len(b) <= b.len(),
{
    lemma_space_run_bounds(b, 1);
    lemma_core_run_bounds(b, 1);
}

/// A non-empty ASCII text has a last segment of at least one byte.
pub proof fn lemma_ascii_back_start_bounds(b: Seq<u8>)
    requires
        b.len() > 0,
    ensures
        0 <= ascii_back_start(b) < b.len(),
{
    lemma_space_start_bounds(b, b.len() - 1);
    if b.len() > 0 {
        lemma_core_start_bounds(b, b.len() - 1);
    }
}

} // verus!
