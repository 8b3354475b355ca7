//! Laws of the line-break rules WB3, WB3a and WB3b: a carriage return and a
//! line feed stay together, and every other break stands alone in its
//! segment.
use vstd::prelude::*;
use crate::tables::{
    WordCat, word_cat, is_extended_pictographic, lemma_pictographic_cat,
};
use crate::word_rules::{
    FwdCursor, FwdStep, BackCursor, BackStep, fwd_step,
    fwd_scan, fwd_start, fwd_len, fwd_inv, lemma_fwd_step_inv, back_step, back_scan,
    back_start_cursor, back_start, back_inv, lemma_back_step_inv, lemma_fwd_len_bounds,
    lemma_back_start_bounds,
};
use crate::laws::{bounds_forward, bounds_backward, law_ascii_bounds_forward, law_ascii_bounds_backward};
use crate::text::utf8_len;
use vstd::utf8::is_ascii_chars;

verus! {

/// CR, LF and the other line separators.
pub open spec fn is_newline_cat(c: WordCat) -> bool {
    c == WordCat::WC_CR || c == WordCat::WC_LF || c == WordCat::WC_Newline
}

/// A carriage return at `i` with a line feed right after it.
pub open spec fn crlf_at(s: Seq<char>, i: int) -> bool {
    &&& 0 <= i
    &&& i + 1 < s.len()
    &&& word_cat(s[i]) == WordCat::WC_CR
    &&& word_cat(s[i + 1]) == WordCat::WC_LF
}

/// No character with a line-separator category is Extended_Pictographic.
pub proof fn lemma_newline_not_pictographic(c: char)
    requires
        is_newline_cat(word_cat(c)),
    ensures
        !is_extended_pictographic(c),
{
    if is_extended_pictographic(c) {
        lemma_pictographic_cat(c);
    }
}

// ---------------------------------------------------------------------------
// Forward: the first segment.
/// After a line separator the segment ends (WB3a); a carriage return keeps
/// the line feed after it (WB3).
pub proof fn law_first_segment_at_newline(s: Seq<char>)
    requires
        s.len() > 0,
        is_newline_cat(word_cat(s[0])),
    ensures
        fwd_len(s) == if crlf_at(s, 0) {
            2int
        } else {
            1int
        },
{
    lemma_newline_not_pictographic(s[0]);
    assert(fwd_step(s, 0, fwd_start()) is Stop);
}

proof fn lemma_scan_stops_at_newline(s: Seq<char>, i: int, j: int, k: FwdCursor)
    requires
        fwd_inv(s, j, k),
        0 < i < s.len(),
        j <= i,
        is_newline_cat(word_cat(s[i])),
        !(i == 1 && crlf_at(s, 0)),
    ensures
        fwd_scan(s, j, k) <= i,
    decreases s.len() - j,
{
    lemma_fwd_step_inv(s, j, k);
    if j < i {
        if let FwdStep::Go(k2) = fwd_step(s, j, k) {
            lemma_scan_stops_at_newline(s, i, j + 1, k2);
        }
    } else {
        lemma_newline_not_pictographic(s[i]);
    }
}

/// The first segment ends before any line separator after its first
/// character (WB3b), but for the line feed of a leading CR LF.
pub proof fn law_first_segment_before_newline(s: Seq<char>, i: int)
    requires
        0 < i < s.len(),
        is_newline_cat(word_cat(s[i])),
        !(i == 1 && crlf_at(s, 0)),
    ensures
        fwd_len(s) <= i,
{
    lemma_scan_stops_at_newline(s, i, 0, fwd_start());
}

// ---------------------------------------------------------------------------
// Backward: the last segment.
/// A segment that ends with a line separator is that separator alone (WB3a,
/// WB3b), or a CR LF pair (WB3).
pub proof fn law_last_segment_at_newline(s: Seq<char>)
    requires
        s.len() > 0,
        is_newline_cat(word_cat(s[s.len() - 1])),
    ensures
        back_start(s) == if crlf_at(s, s.len() - 2) {
            s.len() - 2
        } else {
            s.len() - 1
        },
{
    lemma_newline_not_pictographic(s[s.len() - 1]);
    assert(back_step(s, s.len() - 1, back_start_cursor(s)) is Stop);
}

proof fn lemma_back_scan_after_newline(s: Seq<char>, i: int, j: int, k: BackCursor)
    requires
        back_inv(s, j, k),
        0 <= i < s.len() - 1,
        i <= j,
        j < s.len() - 1 ==> k.saveidx > j,
        is_newline_cat(word_cat(s[i])),
        !(i == s.len() - 2 && crlf_at(s, i)),
    ensures
        back_scan(s, j, k) > i,
    decreases j + 1,
{
    lemma_back_step_inv(s, j, k);
    if j > i {
        if let BackStep::Go(k2) = back_step(s, j, k) {
            lemma_back_scan_after_newline(s, i, j - 1, k2);
        }
    } else {
        lemma_newline_not_pictographic(s[i]);
    }
}

/// The last segment starts after any line separator before its last
/// character (WB3a), but for the carriage return of a trailing CR LF.
pub proof fn law_last_segment_after_newline(s: Seq<char>, i: int)
    requires
        0 <= i < s.len() - 1,
        is_newline_cat(word_cat(s[i])),
        !(i == s.len() - 2 && crlf_at(s, i)),
    ensures
        back_start(s) > i,
{
    lemma_back_scan_after_newline(s, i, s.len() - 1, back_start_cursor(s));
}

// ---------------------------------------------------------------------------
// Whole iterations.
/// A segment that holds a line separator is that separator alone, or a
/// CR LF pair.
pub open spec fn newline_alone(seg: Seq<char>) -> bool {
    forall|p: int|
        0 <= p < seg.len() && is_newline_cat(#[trigger] word_cat(seg[p])) ==> seg.len() == 1 || (
        seg.len() == 2 && crlf_at(seg, 0))
}

proof fn lemma_first_segment_newline_alone(s: Seq<char>)
    requires
        s.len() > 0,
    ensures
        newline_alone(s.take(fwd_len(s))),
{
    let n = fwd_len(s);
    let seg = s.take(n);
    lemma_fwd_len_bounds(s);
    assert forall|p: int| 0 <= p < seg.len() && is_newline_cat(#[trigger] word_cat(seg[p])) implies
        seg.len() == 1 || (seg.len() == 2 && crlf_at(seg, 0)) by {
        assert(seg[p] == s[p]);
        if p == 0 || crlf_at(s, 0) {
            if crlf_at(s, 0) {
                assert(is_newline_cat(word_cat(s[0])));
            }
            law_first_segment_at_newline(s);
        } else {
            law_first_segment_before_newline(s, p);
        }
    }
}

proof fn lemma_last_segment_newline_alone(s: Seq<char>)
    requires
        s.len() > 0,
    ensures
        newline_alone(s.skip(back_start(s))),
{
    let st = back_start(s);
    let seg = s.skip(st);
    lemma_back_start_bounds(s);
    assert forall|p: int| 0 <= p < seg.len() && is_newline_cat(#[trigger] word_cat(seg[p])) implies
        seg.len() == 1 || (seg.len() == 2 && crlf_at(seg, 0)) by {
        let q = st + p;
        assert(seg[p] == s[q]);
        if q == s.len() - 1 || crlf_at(s, s.len() - 2) {
            if crlf_at(s, s.len() - 2) {
                assert(is_newline_cat(word_cat(s[s.len() - 1])));
            }
            law_last_segment_at_newline(s);
        } else {
            law_last_segment_after_newline(s, q);
        }
    }
}

/// Iterated from the front, every segment that holds a line separator is
/// that separator alone or a CR LF pair (WB3, WB3a, WB3b).
pub proof fn law_newlines_stand_alone_forward(ascii: bool, s: Seq<char>, off: int)
    requires
        ascii ==> is_ascii_chars(s),
    ensures
        forall|j: int|
            0 <= j < bounds_forward(ascii, s, off).len() ==> newline_alone(
                #[trigger] bounds_forward(ascii, s, off)[j].1,
            ),
    decreases s.len(), if ascii { 1int } else { 0int },
{
    if ascii {
        law_ascii_bounds_forward(s, off);
        law_newlines_stand_alone_forward(false, s, off);
    } else if s.len() > 0 {
        let l = fwd_len(s);
        lemma_fwd_len_bounds(s);
        lemma_first_segment_newline_alone(s);
        let rest_off = off + utf8_len(s.take(l));
        law_newlines_stand_alone_forward(false, s.skip(l), rest_off);
        let v = bounds_forward(false, s, off);
        assert(v.drop_first() =~= bounds_forward(false, s.skip(l), rest_off));
        assert forall|j: int| 0 <= j < v.len() implies newline_alone(#[trigger] v[j].1) by {
            if j > 0 {
                assert(v[j] == v.drop_first()[j - 1]);
            }
        }
    }
}

/// Iterated from the back, every segment that holds a line separator is
/// that separator alone or a CR LF pair (WB3, WB3a, WB3b).
pub proof fn law_newlines_stand_alone_backward(ascii: bool, s: Seq<char>, off: int)
    requires
        ascii ==> is_ascii_chars(s),
    ensures
        forall|j: int|
            0 <= j < bounds_backward(ascii, s, off).len() ==> newline_alone(
                #[trigger] bounds_backward(ascii, s, off)[j].1,
            ),
    decreases s.len(), if ascii { 1int } else { 0int },
{
    if ascii {
        law_ascii_bounds_backward(s, off);
        law_newlines_stand_alone_backward(false, s, off);
    } else if s.len() > 0 {
        let st = back_start(s);
        lemma_back_start_bounds(s);
        lemma_last_segment_newline_alone(s);
        law_newlines_stand_alone_backward(false, s.take(st), off);
        let v = bounds_backward(false, s, off);
        assert(v.drop_first() =~= bounds_backward(false, s.take(st), off));
        assert forall|j: int| 0 <= j < v.len() implies newline_alone(#[trigger] v[j].1) by {
            if j > 0 {
                assert(v[j] == v.drop_first()[j - 1]);
            }
        }
    }
}

} // verus!
