//! Laws of the rules that keep characters together, and of those that
//! break: letters with letters (WB5), digits with digits (WB8), letters and
//! digits (WB9, WB10), Katakana (WB13), connectors (WB13a, WB13b),
//! horizontal space (WB3d), letters or digits across a middle character
//! (WB6, WB7, WB7a to WB7c, WB11, WB12), Format and Extend characters with
//! what precedes them (WB4), a ZWJ with a pictograph (WB3c), regional
//! indicators in pairs (WB13c), and a break around everything else (WB999).
use vstd::prelude::*;
use crate::tables::{WordCat, word_cat, is_extended_pictographic, lemma_pictographic_cat};
use crate::word_rules::{
    UWordBoundsState, FwdCursor, FwdStep, fwd_step, fwd_scan, fwd_start, fwd_len, fwd_inv,
    is_format_extend, is_require_state, lemma_fwd_step_inv, FormatExtendType, BackCursor, BackStep,
    back_step, back_scan, back_start_cursor, back_start, back_inv, back_rewinds, lemma_back_step_inv,
    lemma_fwd_len_bounds, lemma_back_start_bounds,
};
use crate::laws::{bounds_forward, bounds_backward, law_ascii_bounds_forward, law_ascii_bounds_backward};
use crate::text::utf8_len;
use vstd::utf8::is_ascii_chars;

verus! {

/// A letter: ALetter or Hebrew_Letter.
pub open spec fn is_ahletter(c: WordCat) -> bool {
    c == WordCat::WC_ALetter || c == WordCat::WC_Hebrew_Letter
}

/// Whether the rules keep a character of category `a` together with a
/// character of category `b` right after it.
pub open spec fn joins(a: WordCat, b: WordCat) -> bool {
    let num_a = a == WordCat::WC_Numeric;
    let num_b = b == WordCat::WC_Numeric;
    let kata_a = a == WordCat::WC_Katakana;
    let kata_b = b == WordCat::WC_Katakana;
    let enl_a = a == WordCat::WC_ExtendNumLet;
    let enl_b = b == WordCat::WC_ExtendNumLet;
    ||| is_ahletter(a) && is_ahletter(b)
    ||| num_a && num_b
    ||| is_ahletter(a) && num_b
    ||| num_a && is_ahletter(b)
    ||| kata_a && kata_b
    ||| (is_ahletter(a) || num_a || kata_a || enl_a) && enl_b
    ||| enl_a && (is_ahletter(b) || num_b || kata_b)
    ||| a == WordCat::WC_WSegSpace && b == WordCat::WC_WSegSpace
}

/// The categories that wait for what follows them after a letter or digit.
pub open spec fn is_mid_cat(c: WordCat) -> bool {
    ||| c == WordCat::WC_MidLetter
    ||| c == WordCat::WC_MidNum
    ||| c == WordCat::WC_MidNumLet
    ||| c == WordCat::WC_Single_Quote
    ||| c == WordCat::WC_Double_Quote
}

/// A character of a category other than ALetter that has one is no
/// pictograph.
proof fn lemma_not_pict(c: char)
    requires
        word_cat(c) != WordCat::WC_Any,
        word_cat(c) != WordCat::WC_ALetter,
    ensures
        !is_extended_pictographic(c),
{
    if is_extended_pictographic(c) {
        lemma_pictographic_cat(c);
    }
}

// ---------------------------------------------------------------------------
// Forward
/// The forward state after a character of category `c` that the rules took
/// in.
spec fn fwd_state_fits(k: FwdCursor, c: WordCat) -> bool {
    &&& c == WordCat::WC_ALetter ==> k.state == UWordBoundsState::Letter
    &&& c == WordCat::WC_Hebrew_Letter ==> k.state == UWordBoundsState::HLetter
    &&& c == WordCat::WC_Numeric ==> k.state == UWordBoundsState::Numeric
    &&& c == WordCat::WC_Katakana ==> k.state == UWordBoundsState::Katakana
    &&& c == WordCat::WC_ExtendNumLet ==> k.state == UWordBoundsState::ExtendNumLet
    &&& c == WordCat::WC_WSegSpace ==> k.state == UWordBoundsState::WSegSpace && !k.skipped
}

spec fn fwd_join_inv(s: Seq<char>, j: int, k: FwdCursor) -> bool {
    &&& (j > 0 && !is_format_extend(word_cat(s[j - 1])) && !is_extended_pictographic(s[j - 1]))
        ==> fwd_state_fits(k, word_cat(s[j - 1]))
    &&& is_require_state(k.state) ==> is_mid_cat(k.savecat)
}

proof fn lemma_fwd_join_step(s: Seq<char>, j: int, k: FwdCursor)
    requires
        fwd_inv(s, j, k),
        fwd_join_inv(s, j, k),
        j < s.len(),
    ensures
        fwd_step(s, j, k) matches FwdStep::Go(k2) ==> fwd_join_inv(s, j + 1, k2),
{
    lemma_fwd_step_inv(s, j, k);
}

proof fn lemma_fwd_scan_not_at(s: Seq<char>, m: int, j: int, k: FwdCursor)
    requires
        fwd_inv(s, j, k),
        fwd_join_inv(s, j, k),
        0 < m < s.len(),
        joins(word_cat(s[m - 1]), word_cat(s[m])),
        !is_extended_pictographic(s[m - 1]),
    ensures
        fwd_scan(s, j, k) != m,
    decreases s.len() - j,
{
    if j < s.len() {
        lemma_fwd_step_inv(s, j, k);
        lemma_fwd_join_step(s, j, k);
        if let FwdStep::Go(k2) = fwd_step(s, j, k) {
            lemma_fwd_scan_not_at(s, m, j + 1, k2);
        }
    }
}

/// The first segment does not end between two characters that the rules
/// keep together, unless the first of them is a pictograph (which a
/// preceding ZWJ joins to an emoji sequence instead, WB3c).
pub proof fn law_first_segment_keeps_joined(s: Seq<char>, m: int)
    requires
        0 < m < s.len(),
        joins(word_cat(s[m - 1]), word_cat(s[m])),
        !is_extended_pictographic(s[m - 1]),
    ensures
        fwd_len(s) != m,
{
    lemma_fwd_scan_not_at(s, m, 0, fwd_start());
}

// ---------------------------------------------------------------------------
// Backward
/// The backward state after a character of category `c` that the rules took
/// in.
spec fn back_state_fits(k: BackCursor, c: WordCat) -> bool {
    &&& c == WordCat::WC_ALetter ==> k.state == UWordBoundsState::Letter
    &&& c == WordCat::WC_Hebrew_Letter ==> k.state == UWordBoundsState::HLetter
    &&& c == WordCat::WC_Numeric ==> k.state == UWordBoundsState::Numeric
    &&& c == WordCat::WC_Katakana ==> k.state == UWordBoundsState::Katakana
    &&& c == WordCat::WC_ExtendNumLet ==> k.state == UWordBoundsState::ExtendNumLet
    &&& c == WordCat::WC_WSegSpace ==> k.state == UWordBoundsState::WSegSpace && !k.skipped
}

/// The states that hold a saved start to fall back to.
spec fn holds_save(st: UWordBoundsState) -> bool {
    back_rewinds(st) || st == UWordBoundsState::FormatExtend(FormatExtendType::AcceptNone)
}

/// What a backward scan keeps true of its state and of the character read
/// last.
spec fn back_fit_inv(s: Seq<char>, j: int, k: BackCursor) -> bool {
    &&& (k.state == UWordBoundsState::Start || k.state == UWordBoundsState::FormatExtend(
        FormatExtendType::AcceptAny,
    ) || k.state == UWordBoundsState::Zwj) ==> !k.skipped
    &&& k.state != UWordBoundsState::Emoji
    &&& k.savestate != UWordBoundsState::Emoji
    &&& (j < s.len() - 1 && !is_format_extend(word_cat(s[j + 1])) && !is_extended_pictographic(
        s[j + 1],
    )) ==> back_state_fits(k, word_cat(s[j + 1]))
}

proof fn lemma_back_fit_step(s: Seq<char>, j: int, k: BackCursor)
    requires
        back_inv(s, j, k),
        back_fit_inv(s, j, k),
        0 <= j,
    ensures
        back_step(s, j, k) matches BackStep::Go(k2) ==> back_fit_inv(s, j - 1, k2),
{
    lemma_back_step_inv(s, j, k);
}

spec fn back_join_inv(s: Seq<char>, m: int, j: int, k: BackCursor) -> bool {
    &&& back_fit_inv(s, j, k)
    &&& holds_save(k.state) ==> k.saveidx != m
}

proof fn lemma_back_join_step(s: Seq<char>, m: int, j: int, k: BackCursor)
    requires
        back_inv(s, j, k),
        back_join_inv(s, m, j, k),
        0 <= j,
        0 < m < s.len(),
        joins(word_cat(s[m - 1]), word_cat(s[m])),
    ensures
        back_step(s, j, k) matches BackStep::Go(k2) ==> back_join_inv(s, m, j - 1, k2),
{
    lemma_back_step_inv(s, j, k);
    lemma_back_fit_step(s, j, k);
}

proof fn lemma_back_scan_not_at(s: Seq<char>, m: int, j: int, k: BackCursor)
    requires
        back_inv(s, j, k),
        back_join_inv(s, m, j, k),
        0 < m < s.len(),
        joins(word_cat(s[m - 1]), word_cat(s[m])),
        !is_extended_pictographic(s[m]),
    ensures
        back_scan(s, j, k) != m,
    decreases j + 1,
{
    if j >= 0 {
        lemma_back_step_inv(s, j, k);
        lemma_back_join_step(s, m, j, k);
        if let BackStep::Go(k2) = back_step(s, j, k) {
            lemma_back_scan_not_at(s, m, j - 1, k2);
        }
    }
}

/// The last segment does not start between two characters that the rules
/// keep together, unless the second of them is a pictograph (which starts
/// an emoji sequence of its own when read from the back, WB3c).
pub proof fn law_last_segment_keeps_joined(s: Seq<char>, m: int)
    requires
        0 < m < s.len(),
        joins(word_cat(s[m - 1]), word_cat(s[m])),
        !is_extended_pictographic(s[m]),
    ensures
        back_start(s) != m,
{
    lemma_back_scan_not_at(s, m, s.len() - 1, back_start_cursor(s));
}

// ---------------------------------------------------------------------------
// Whole iterations
/// Whether a boundary between segments `a` and `b` (in text order) splits
/// two characters that the rules keep together; `pict_left` tells which of
/// the two may not be a pictograph.
pub open spec fn splits_joined(a: Seq<char>, b: Seq<char>, pict_left: bool) -> bool {
    &&& a.len() > 0
    &&& b.len() > 0
    &&& joins(word_cat(a.last()), word_cat(b[0]))
    &&& if pict_left {
        !is_extended_pictographic(a.last())
    } else {
        !is_extended_pictographic(b[0])
    }
}

/// The first two segments from the front do not split joined characters.
proof fn lemma_first_two_segments(s: Seq<char>, off: int)
    requires
        bounds_forward(false, s, off).len() >= 2,
    ensures
        !splits_joined(bounds_forward(false, s, off)[0].1, bounds_forward(false, s, off)[1].1, true),
{
    let v = bounds_forward(false, s, off);
    let l = fwd_len(s);
    lemma_fwd_len_bounds(s);
    let rest = s.skip(l);
    let w = bounds_forward(false, rest, off + utf8_len(s.take(l)));
    assert(v[0].1 == s.take(l));
    assert(v.drop_first() =~= w);
    assert(v[1] == w[0]);
    if splits_joined(v[0].1, v[1].1, true) {
        lemma_fwd_len_bounds(rest);
        assert(w[0].1 == rest.take(fwd_len(rest)));
        assert(w[0].1[0] == s[l]);
        assert(v[0].1.last() == s[l - 1]);
        law_first_segment_keeps_joined(s, l);
    }
}

/// Iterated from the front, no boundary between two segments splits
/// characters that the rules keep together (WB3d, WB5, WB8 to WB10, WB13 to
/// WB13b), where the first of them is no pictograph.
pub proof fn law_bounds_forward_keep_joined(ascii: bool, s: Seq<char>, off: int)
    requires
        ascii ==> is_ascii_chars(s),
    ensures
        forall|j: int|
            0 <= j < bounds_forward(ascii, s, off).len() - 1 ==> !splits_joined(
                #[trigger] bounds_forward(ascii, s, off)[j].1,
                bounds_forward(ascii, s, off)[j + 1].1,
                true,
            ),
    decreases s.len(), if ascii { 1int } else { 0int },
{
    if ascii {
        law_ascii_bounds_forward(s, off);
        law_bounds_forward_keep_joined(false, s, off);
    } else if s.len() > 0 {
        let l = fwd_len(s);
        lemma_fwd_len_bounds(s);
        let rest = s.skip(l);
        let rest_off = off + utf8_len(s.take(l));
        law_bounds_forward_keep_joined(false, rest, rest_off);
        let v = bounds_forward(false, s, off);
        let w = bounds_forward(false, rest, rest_off);
        assert(v.drop_first() =~= w);
        if v.len() >= 2 {
            lemma_first_two_segments(s, off);
        }
        assert forall|j: int| 0 <= j < v.len() - 1 implies !splits_joined(
            #[trigger] v[j].1,
            v[j + 1].1,
            true,
        ) by {
            if j > 0 {
                assert(v[j + 1] == w[j]);
                assert(v[j] == w[j - 1]);
            }
        }
    }
}

/// The last two segments from the back do not split joined characters.
proof fn lemma_last_two_segments(s: Seq<char>, off: int)
    requires
        bounds_backward(false, s, off).len() >= 2,
    ensures
        !splits_joined(
            bounds_backward(false, s, off)[1].1,
            bounds_backward(false, s, off)[0].1,
            false,
        ),
{
    let v = bounds_backward(false, s, off);
    let st = back_start(s);
    lemma_back_start_bounds(s);
    let rest = s.take(st);
    let w = bounds_backward(false, rest, off);
    assert(v[0].1 == s.skip(st));
    assert(v.drop_first() =~= w);
    assert(v[1] == w[0]);
    if splits_joined(v[1].1, v[0].1, false) {
        lemma_back_start_bounds(rest);
        assert(w[0].1 == rest.skip(back_start(rest)));
        assert(w[0].1.last() == s[st - 1]);
        assert(v[0].1[0] == s[st]);
        law_last_segment_keeps_joined(s, st);
    }
}

/// Iterated from the back, no boundary between two segments splits
/// characters that the rules keep together (WB3d, WB5, WB8 to WB10, WB13 to
/// WB13b), where the second of them is no pictograph.
pub proof fn law_bounds_backward_keep_joined(ascii: bool, s: Seq<char>, off: int)
    requires
        ascii ==> is_ascii_chars(s),
    ensures
        forall|j: int|
            0 <= j < bounds_backward(ascii, s, off).len() - 1 ==> !splits_joined(
                bounds_backward(ascii, s, off)[j + 1].1,
                #[trigger] bounds_backward(ascii, s, off)[j].1,
                false,
            ),
    decreases s.len(), if ascii { 1int } else { 0int },
{
    if ascii {
        law_ascii_bounds_backward(s, off);
        law_bounds_backward_keep_joined(false, s, off);
    } else if s.len() > 0 {
        let st = back_start(s);
        lemma_back_start_bounds(s);
        let rest = s.take(st);
        law_bounds_backward_keep_joined(false, rest, off);
        let v = bounds_backward(false, s, off);
        let w = bounds_backward(false, rest, off);
        assert(v.drop_first() =~= w);
        if v.len() >= 2 {
            lemma_last_two_segments(s, off);
        }
        assert forall|j: int| 0 <= j < v.len() - 1 implies !splits_joined(
            v[j + 1].1,
            #[trigger] v[j].1,
            false,
        ) by {
            if j > 0 {
                assert(v[j + 1] == w[j]);
                assert(v[j] == w[j - 1]);
            }
        }
    }
}

// ---------------------------------------------------------------------------
// Across a middle character
/// Whether the rules keep three characters of categories `a`, `b`, `c` in a
/// row together: letters around a middle character (WB6, WB7), Hebrew
/// letters around a double quote (WB7b, WB7c), or digits around a middle
/// character (WB11, WB12).
pub open spec fn joins_across(a: WordCat, b: WordCat, c: WordCat) -> bool {
    ||| is_ahletter(a) && (b == WordCat::WC_MidLetter || b == WordCat::WC_MidNumLet || b
        == WordCat::WC_Single_Quote) && is_ahletter(c)
    ||| a == WordCat::WC_Hebrew_Letter && b == WordCat::WC_Double_Quote && c
        == WordCat::WC_Hebrew_Letter
    ||| a == WordCat::WC_Numeric && (b == WordCat::WC_MidNum || b == WordCat::WC_MidNumLet || b
        == WordCat::WC_Single_Quote) && c == WordCat::WC_Numeric
}

/// Whether `s[m - 1]`, `s[m]`, `s[m + 1]` are kept together across the
/// middle character `s[m]`.
pub open spec fn joined_across_at(s: Seq<char>, m: int) -> bool {
    &&& 0 < m
    &&& m + 1 < s.len()
    &&& joins_across(word_cat(s[m - 1]), word_cat(s[m]), word_cat(s[m + 1]))
}

spec fn fwd_across_inv(s: Seq<char>, m: int, j: int, k: FwdCursor) -> bool {
    &&& fwd_inv(s, j, k)
    &&& fwd_join_inv(s, j, k)
    &&& is_require_state(k.state) ==> k.saveidx != m + 1 && (k.saveidx == m ==> j == m + 1)
}

proof fn lemma_fwd_across_step(s: Seq<char>, m: int, j: int, k: FwdCursor)
    requires
        fwd_across_inv(s, m, j, k),
        joined_across_at(s, m),
        j < s.len(),
    ensures
        fwd_step(s, j, k) matches FwdStep::Go(k2) ==> fwd_across_inv(s, m, j + 1, k2),
{
    lemma_fwd_step_inv(s, j, k);
    lemma_fwd_join_step(s, j, k);
}

/// Reading the middle character and the one after it never stops the scan.
proof fn lemma_fwd_across_two_steps(s: Seq<char>, m: int, k: FwdCursor)
    requires
        fwd_across_inv(s, m, m, k),
        joined_across_at(s, m),
        !is_extended_pictographic(s[m - 1]),
    ensures
        fwd_step(s, m, k) is Go,
        fwd_step(s, m + 1, fwd_step(s, m, k)->Go_0) is Go,
        fwd_across_inv(s, m, m + 2, fwd_step(s, m + 1, fwd_step(s, m, k)->Go_0)->Go_0),
{
    lemma_fwd_step_inv(s, m, k);
    lemma_fwd_across_step(s, m, m, k);
    let k2 = fwd_step(s, m, k)->Go_0;
    lemma_fwd_step_inv(s, m + 1, k2);
    lemma_fwd_across_step(s, m, m + 1, k2);
}

/// Elsewhere a stop is on neither side of the middle character.
proof fn lemma_fwd_across_stop(s: Seq<char>, m: int, j: int, k: FwdCursor)
    requires
        fwd_across_inv(s, m, j, k),
        joined_across_at(s, m),
        j < m || j >= m + 2,
    ensures
        j < s.len() ==> (fwd_step(s, j, k) matches FwdStep::Stop(n) ==> n != m && n != m + 1),
        j >= s.len() ==> crate::word_rules::fwd_finish(s, k) != m && crate::word_rules::fwd_finish(
            s,
            k,
        ) != m + 1,
{
    if j < s.len() {
        lemma_fwd_step_inv(s, j, k);
    }
}

proof fn lemma_fwd_scan_not_across(s: Seq<char>, m: int, j: int, k: FwdCursor)
    requires
        fwd_across_inv(s, m, j, k),
        joined_across_at(s, m),
        !is_extended_pictographic(s[m - 1]),
        j <= m || j >= m + 2,
    ensures
        fwd_scan(s, j, k) != m,
        fwd_scan(s, j, k) != m + 1,
    decreases s.len() - j,
{
    if j == m {
        lemma_fwd_across_two_steps(s, m, k);
        let k2 = fwd_step(s, m, k)->Go_0;
        let k3 = fwd_step(s, m + 1, k2)->Go_0;
        assert(fwd_scan(s, m, k) == fwd_scan(s, m + 1, k2));
        assert(fwd_scan(s, m + 1, k2) == fwd_scan(s, m + 2, k3));
        lemma_fwd_scan_not_across(s, m, m + 2, k3);
    } else {
        lemma_fwd_across_stop(s, m, j, k);
        if j < s.len() {
            lemma_fwd_across_step(s, m, j, k);
            if let FwdStep::Go(k2) = fwd_step(s, j, k) {
                lemma_fwd_scan_not_across(s, m, j + 1, k2);
            }
        }
    }
}

/// The first segment does not end on either side of a middle character that
/// the rules keep between two letters or two digits, unless the character
/// before it is a pictograph.
pub proof fn law_first_segment_keeps_across(s: Seq<char>, m: int)
    requires
        joined_across_at(s, m),
        !is_extended_pictographic(s[m - 1]),
    ensures
        fwd_len(s) != m,
        fwd_len(s) != m + 1,
{
    lemma_fwd_scan_not_across(s, m, 0, fwd_start());
}

spec fn back_across_inv(s: Seq<char>, m: int, j: int, k: BackCursor) -> bool {
    &&& back_inv(s, j, k)
    &&& back_fit_inv(s, j, k)
    &&& k.state == UWordBoundsState::FormatExtend(FormatExtendType::AcceptNone) ==> k.saveidx != m
        && k.saveidx != m + 1
    &&& back_rewinds(k.state) ==> k.saveidx != m && (k.saveidx == m + 1 ==> j == m - 1)
}

proof fn lemma_back_across_step(s: Seq<char>, m: int, j: int, k: BackCursor)
    requires
        back_across_inv(s, m, j, k),
        joined_across_at(s, m),
        !is_extended_pictographic(s[m + 1]),
        0 <= j,
    ensures
        back_step(s, j, k) matches BackStep::Go(k2) ==> back_across_inv(s, m, j - 1, k2),
{
    lemma_back_step_inv(s, j, k);
    lemma_back_fit_step(s, j, k);
}

/// Reading the middle character and the one before it never stops the scan.
proof fn lemma_back_across_two_steps(s: Seq<char>, m: int, k: BackCursor)
    requires
        back_across_inv(s, m, m, k),
        joined_across_at(s, m),
        !is_extended_pictographic(s[m + 1]),
    ensures
        back_step(s, m, k) is Go,
        back_step(s, m - 1, back_step(s, m, k)->Go_0) is Go,
        back_across_inv(s, m, m - 2, back_step(s, m - 1, back_step(s, m, k)->Go_0)->Go_0),
{
    lemma_back_step_inv(s, m, k);
    lemma_back_across_step(s, m, m, k);
    let k2 = back_step(s, m, k)->Go_0;
    lemma_back_step_inv(s, m - 1, k2);
    lemma_back_across_step(s, m, m - 1, k2);
}

/// Elsewhere a stop is on neither side of the middle character.
proof fn lemma_back_across_stop(s: Seq<char>, m: int, j: int, k: BackCursor)
    requires
        back_across_inv(s, m, j, k),
        joined_across_at(s, m),
        !is_extended_pictographic(s[m + 1]),
        j > m || j < m - 1,
    ensures
        j >= 0 ==> (back_step(s, j, k) matches BackStep::Stop(n) ==> n != m && n != m + 1),
        j < 0 ==> crate::word_rules::back_finish(k) != m && crate::word_rules::back_finish(k) != m
            + 1,
{
    if j >= 0 {
        lemma_back_step_inv(s, j, k);
    }
}

proof fn lemma_back_scan_not_across(s: Seq<char>, m: int, j: int, k: BackCursor)
    requires
        back_across_inv(s, m, j, k),
        joined_across_at(s, m),
        !is_extended_pictographic(s[m + 1]),
        j >= m || j < m - 1,
    ensures
        back_scan(s, j, k) != m,
        back_scan(s, j, k) != m + 1,
    decreases j + 1,
{
    if j == m {
        lemma_back_across_two_steps(s, m, k);
        let k2 = back_step(s, m, k)->Go_0;
        let k3 = back_step(s, m - 1, k2)->Go_0;
        assert(back_scan(s, m, k) == back_scan(s, m - 1, k2));
        assert(back_scan(s, m - 1, k2) == back_scan(s, m - 2, k3));
        lemma_back_scan_not_across(s, m, m - 2, k3);
    } else {
        lemma_back_across_stop(s, m, j, k);
        if j >= 0 {
            lemma_back_across_step(s, m, j, k);
            if let BackStep::Go(k2) = back_step(s, j, k) {
                lemma_back_scan_not_across(s, m, j - 1, k2);
            }
        }
    }
}

/// The last segment does not start on either side of a middle character
/// that the rules keep between two letters or two digits, unless the
/// character after it is a pictograph.
pub proof fn law_last_segment_keeps_across(s: Seq<char>, m: int)
    requires
        joined_across_at(s, m),
        !is_extended_pictographic(s[m + 1]),
    ensures
        back_start(s) != m,
        back_start(s) != m + 1,
{
    lemma_back_scan_not_across(s, m, s.len() - 1, back_start_cursor(s));
}

// ---------------------------------------------------------------------------
// Break positions of whole iterations
/// Whether, iterated from the front, some segment of `s` ends after its
/// first `p` characters.
pub open spec fn is_fwd_break(s: Seq<char>, p: int) -> bool
    decreases s.len(),
{
    let l = fwd_len(s);
    if s.len() == 0 || l < 1 || l > s.len() {
        false
    } else if p == l {
        true
    } else if p > l {
        is_fwd_break(s.skip(l), p - l)
    } else {
        false
    }
}

/// Whether, iterated from the back, some segment of `s` starts at character
/// `p`.
pub open spec fn is_back_break(s: Seq<char>, p: int) -> bool
    decreases s.len(),
{
    let st = back_start(s);
    if s.len() == 0 || st < 0 || st >= s.len() {
        false
    } else if p == st {
        true
    } else if p < st {
        is_back_break(s.take(st), p)
    } else {
        false
    }
}

/// Iterated from the front, no segment ends between two characters that the
/// rules keep together, where the first of them is no pictograph.
pub proof fn law_fwd_breaks_keep_joined(s: Seq<char>, m: int)
    requires
        0 < m < s.len(),
        joins(word_cat(s[m - 1]), word_cat(s[m])),
        !is_extended_pictographic(s[m - 1]),
    ensures
        !is_fwd_break(s, m),
    decreases s.len(),
{
    let l = fwd_len(s);
    lemma_fwd_len_bounds(s);
    law_first_segment_keeps_joined(s, m);
    if l < m {
        let rest = s.skip(l);
        assert(rest[m - l - 1] == s[m - 1]);
        assert(rest[m - l] == s[m]);
        law_fwd_breaks_keep_joined(rest, m - l);
    }
}

/// Iterated from the back, no segment starts between two characters that
/// the rules keep together, where the second of them is no pictograph.
pub proof fn law_back_breaks_keep_joined(s: Seq<char>, m: int)
    requires
        0 < m < s.len(),
        joins(word_cat(s[m - 1]), word_cat(s[m])),
        !is_extended_pictographic(s[m]),
    ensures
        !is_back_break(s, m),
    decreases s.len(),
{
    let st = back_start(s);
    lemma_back_start_bounds(s);
    law_last_segment_keeps_joined(s, m);
    if st > m {
        let rest = s.take(st);
        assert(rest[m - 1] == s[m - 1]);
        assert(rest[m] == s[m]);
        law_back_breaks_keep_joined(rest, m);
    }
}

/// Iterated from the front, no segment ends on either side of a middle
/// character that the rules keep between two letters or two digits (WB6,
/// WB7, WB7b, WB7c, WB11, WB12), where the character before it is no
/// pictograph.
pub proof fn law_fwd_breaks_keep_across(s: Seq<char>, m: int)
    requires
        joined_across_at(s, m),
        !is_extended_pictographic(s[m - 1]),
    ensures
        !is_fwd_break(s, m),
        !is_fwd_break(s, m + 1),
    decreases s.len(),
{
    let l = fwd_len(s);
    lemma_fwd_len_bounds(s);
    law_first_segment_keeps_across(s, m);
    if l < m {
        let rest = s.skip(l);
        assert(rest[m - l - 1] == s[m - 1]);
        assert(rest[m - l] == s[m]);
        assert(rest[m - l + 1] == s[m + 1]);
        law_fwd_breaks_keep_across(rest, m - l);
    }
}

/// Iterated from the back, no segment starts on either side of a middle
/// character that the rules keep between two letters or two digits (WB6,
/// WB7, WB7b, WB7c, WB11, WB12), where the character after it is no
/// pictograph.
pub proof fn law_back_breaks_keep_across(s: Seq<char>, m: int)
    requires
        joined_across_at(s, m),
        !is_extended_pictographic(s[m + 1]),
    ensures
        !is_back_break(s, m),
        !is_back_break(s, m + 1),
    decreases s.len(),
{
    let st = back_start(s);
    lemma_back_start_bounds(s);
    law_last_segment_keeps_across(s, m);
    if st > m + 1 {
        let rest = s.take(st);
        assert(rest[m - 1] == s[m - 1]);
        assert(rest[m] == s[m]);
        assert(rest[m + 1] == s[m + 1]);
        law_back_breaks_keep_across(rest, m);
    }
}

// ---------------------------------------------------------------------------
// Format and Extend characters
proof fn lemma_fwd_scan_not_before_extend(s: Seq<char>, p: int, j: int, k: FwdCursor)
    requires
        fwd_inv(s, j, k),
        fwd_join_inv(s, j, k),
        0 < p < s.len(),
        is_format_extend(word_cat(s[p])),
        !crate::line_breaks::is_newline_cat(word_cat(s[p - 1])),
    ensures
        fwd_scan(s, j, k) != p,
    decreases s.len() - j,
{
    if j < s.len() {
        lemma_fwd_step_inv(s, j, k);
        lemma_fwd_join_step(s, j, k);
        if let FwdStep::Go(k2) = fwd_step(s, j, k) {
            lemma_fwd_scan_not_before_extend(s, p, j + 1, k2);
        }
    }
}

/// The first segment does not end right before a Format, Extend or ZWJ
/// character (WB4), unless a line separator comes before it.
pub proof fn law_first_segment_keeps_extend(s: Seq<char>, p: int)
    requires
        0 < p < s.len(),
        is_format_extend(word_cat(s[p])),
        !crate::line_breaks::is_newline_cat(word_cat(s[p - 1])),
    ensures
        fwd_len(s) != p,
{
    lemma_fwd_scan_not_before_extend(s, p, 0, fwd_start());
}

/// Iterated from the front, no segment ends right before a Format, Extend or
/// ZWJ character (WB4), unless a line separator comes before it.
pub proof fn law_fwd_breaks_keep_extend(s: Seq<char>, p: int)
    requires
        0 < p < s.len(),
        is_format_extend(word_cat(s[p])),
        !crate::line_breaks::is_newline_cat(word_cat(s[p - 1])),
    ensures
        !is_fwd_break(s, p),
    decreases s.len(),
{
    let l = fwd_len(s);
    lemma_fwd_len_bounds(s);
    law_first_segment_keeps_extend(s, p);
    if l < p {
        let rest = s.skip(l);
        assert(rest[p - l - 1] == s[p - 1]);
        assert(rest[p - l] == s[p]);
        law_fwd_breaks_keep_extend(rest, p - l);
    }
}

spec fn back_extend_inv(s: Seq<char>, j: int, k: BackCursor) -> bool {
    &&& back_inv(s, j, k)
    &&& (j < s.len() - 1 && is_format_extend(word_cat(s[j + 1])) && !is_extended_pictographic(
        s[j + 1],
    )) ==> k.state is FormatExtend
    &&& holds_save(k.state) ==> (!is_format_extend(word_cat(s[k.saveidx]))
        || is_extended_pictographic(s[k.saveidx]))
}

proof fn lemma_back_extend_step(s: Seq<char>, j: int, k: BackCursor)
    requires
        back_extend_inv(s, j, k),
        0 <= j,
    ensures
        back_step(s, j, k) matches BackStep::Go(k2) ==> back_extend_inv(s, j - 1, k2),
{
    lemma_back_step_inv(s, j, k);
}

proof fn lemma_back_scan_not_at_extend(s: Seq<char>, p: int, j: int, k: BackCursor)
    requires
        back_extend_inv(s, j, k),
        0 < p < s.len(),
        is_format_extend(word_cat(s[p])),
        !is_extended_pictographic(s[p]),
        !crate::line_breaks::is_newline_cat(word_cat(s[p - 1])),
    ensures
        back_scan(s, j, k) != p,
    decreases j + 1,
{
    if j >= 0 {
        lemma_back_step_inv(s, j, k);
        lemma_back_extend_step(s, j, k);
        if let BackStep::Go(k2) = back_step(s, j, k) {
            lemma_back_scan_not_at_extend(s, p, j - 1, k2);
        }
    }
}

/// The last segment does not start at a Format, Extend or ZWJ character
/// (WB4), unless a line separator comes before it.
pub proof fn law_last_segment_keeps_extend(s: Seq<char>, p: int)
    requires
        0 < p < s.len(),
        is_format_extend(word_cat(s[p])),
        !crate::line_breaks::is_newline_cat(word_cat(s[p - 1])),
    ensures
        back_start(s) != p,
{
    lemma_not_pict(s[p]);
    lemma_back_scan_not_at_extend(s, p, s.len() - 1, back_start_cursor(s));
}

/// Iterated from the back, no segment starts at a Format, Extend or ZWJ
/// character (WB4), unless a line separator comes before it.
pub proof fn law_back_breaks_keep_extend(s: Seq<char>, p: int)
    requires
        0 < p < s.len(),
        is_format_extend(word_cat(s[p])),
        !crate::line_breaks::is_newline_cat(word_cat(s[p - 1])),
    ensures
        !is_back_break(s, p),
    decreases s.len(),
{
    let st = back_start(s);
    lemma_back_start_bounds(s);
    law_last_segment_keeps_extend(s, p);
    if st > p {
        let rest = s.take(st);
        assert(rest[p - 1] == s[p - 1]);
        assert(rest[p] == s[p]);
        law_back_breaks_keep_extend(rest, p);
    }
}

// ---------------------------------------------------------------------------
// Emoji sequences
proof fn lemma_fwd_scan_not_after_zwj(s: Seq<char>, m: int, j: int, k: FwdCursor)
    requires
        fwd_inv(s, j, k),
        fwd_join_inv(s, j, k),
        0 < m < s.len(),
        word_cat(s[m - 1]) == WordCat::WC_ZWJ,
        is_extended_pictographic(s[m]),
    ensures
        fwd_scan(s, j, k) != m,
    decreases s.len() - j,
{
    lemma_pictographic_cat(s[m]);
    if j < s.len() {
        lemma_fwd_step_inv(s, j, k);
        lemma_fwd_join_step(s, j, k);
        if let FwdStep::Go(k2) = fwd_step(s, j, k) {
            lemma_fwd_scan_not_after_zwj(s, m, j + 1, k2);
        }
    }
}

/// The first segment does not end between a ZWJ and a pictograph after it
/// (WB3c).
pub proof fn law_first_segment_keeps_zwj_emoji(s: Seq<char>, m: int)
    requires
        0 < m < s.len(),
        word_cat(s[m - 1]) == WordCat::WC_ZWJ,
        is_extended_pictographic(s[m]),
    ensures
        fwd_len(s) != m,
{
    lemma_fwd_scan_not_after_zwj(s, m, 0, fwd_start());
}

/// Iterated from the front, no segment ends between a ZWJ and a pictograph
/// after it (WB3c).
pub proof fn law_fwd_breaks_keep_zwj_emoji(s: Seq<char>, m: int)
    requires
        0 < m < s.len(),
        word_cat(s[m - 1]) == WordCat::WC_ZWJ,
        is_extended_pictographic(s[m]),
    ensures
        !is_fwd_break(s, m),
    decreases s.len(),
{
    let l = fwd_len(s);
    lemma_fwd_len_bounds(s);
    law_first_segment_keeps_zwj_emoji(s, m);
    if l < m {
        let rest = s.skip(l);
        assert(rest[m - l - 1] == s[m - 1]);
        assert(rest[m - l] == s[m]);
        law_fwd_breaks_keep_zwj_emoji(rest, m - l);
    }
}

spec fn back_zwj_inv(s: Seq<char>, m: int, j: int, k: BackCursor) -> bool {
    &&& back_inv(s, j, k)
    &&& k.state != UWordBoundsState::Emoji
    &&& k.savestate != UWordBoundsState::Emoji
    &&& (j == m - 1 && word_cat(s[m]) == WordCat::WC_Any) ==> k.state == UWordBoundsState::Zwj
    &&& holds_save(k.state) ==> k.saveidx != m
}

proof fn lemma_back_zwj_step(s: Seq<char>, m: int, j: int, k: BackCursor)
    requires
        back_zwj_inv(s, m, j, k),
        0 < m < s.len(),
        word_cat(s[m - 1]) == WordCat::WC_ZWJ,
        is_extended_pictographic(s[m]),
        word_cat(s[m]) == WordCat::WC_Any,
        0 <= j,
    ensures
        back_step(s, j, k) matches BackStep::Go(k2) ==> back_zwj_inv(s, m, j - 1, k2),
{
    lemma_pictographic_cat(s[m]);
    lemma_back_step_inv(s, j, k);
}

proof fn lemma_back_scan_not_after_zwj(s: Seq<char>, m: int, j: int, k: BackCursor)
    requires
        back_zwj_inv(s, m, j, k),
        0 < m < s.len(),
        word_cat(s[m - 1]) == WordCat::WC_ZWJ,
        is_extended_pictographic(s[m]),
        word_cat(s[m]) == WordCat::WC_Any,
    ensures
        back_scan(s, j, k) != m,
    decreases j + 1,
{
    if j >= 0 {
        lemma_back_step_inv(s, j, k);
        lemma_back_zwj_step(s, m, j, k);
        if let BackStep::Go(k2) = back_step(s, j, k) {
            lemma_back_scan_not_after_zwj(s, m, j - 1, k2);
        }
    }
}

/// The last segment does not start between a ZWJ and a pictograph after it
/// (WB3c), where the pictograph has no other word break category.
pub proof fn law_last_segment_keeps_zwj_emoji(s: Seq<char>, m: int)
    requires
        0 < m < s.len(),
        word_cat(s[m - 1]) == WordCat::WC_ZWJ,
        is_extended_pictographic(s[m]),
        word_cat(s[m]) == WordCat::WC_Any,
    ensures
        back_start(s) != m,
{
    lemma_back_scan_not_after_zwj(s, m, s.len() - 1, back_start_cursor(s));
}

/// Iterated from the back, no segment starts between a ZWJ and a pictograph
/// after it (WB3c), where the pictograph has no other word break category.
pub proof fn law_back_breaks_keep_zwj_emoji(s: Seq<char>, m: int)
    requires
        0 < m < s.len(),
        word_cat(s[m - 1]) == WordCat::WC_ZWJ,
        is_extended_pictographic(s[m]),
        word_cat(s[m]) == WordCat::WC_Any,
    ensures
        !is_back_break(s, m),
    decreases s.len(),
{
    let st = back_start(s);
    lemma_back_start_bounds(s);
    law_last_segment_keeps_zwj_emoji(s, m);
    if st > m {
        let rest = s.take(st);
        assert(rest[m - 1] == s[m - 1]);
        assert(rest[m] == s[m]);
        law_back_breaks_keep_zwj_emoji(rest, m);
    }
}

// ---------------------------------------------------------------------------
// Flags
/// A regional indicator.
pub open spec fn is_ri(c: char) -> bool {
    word_cat(c) == WordCat::WC_Regional_Indicator
}

/// After a full flag or an emoji, the scan ends no earlier than where it
/// stands.
proof fn lemma_fwd_scan_after_flag(s: Seq<char>, j: int, k: FwdCursor)
    requires
        fwd_inv(s, j, k),
        k.state == UWordBoundsState::Regional(crate::word_rules::RegionalState::Full)
            || k.state == UWordBoundsState::Emoji,
    ensures
        fwd_scan(s, j, k) >= j,
    decreases s.len() - j,
{
    if j < s.len() {
        lemma_fwd_step_inv(s, j, k);
        if let FwdStep::Go(k2) = fwd_step(s, j, k) {
            lemma_fwd_scan_after_flag(s, j + 1, k2);
        }
    }
}

/// From the front, two regional indicators make one flag, and a third one
/// right after them starts the next segment (WB13c).
pub proof fn law_first_segment_flag(s: Seq<char>)
    requires
        s.len() >= 2,
        is_ri(s[0]),
        is_ri(s[1]),
    ensures
        fwd_len(s) >= 2,
        (s.len() == 2 || is_ri(s[2])) ==> fwd_len(s) == 2,
{
    let k0 = fwd_start();
    assert(fwd_step(s, 0, k0) is Go);
    let k1 = fwd_step(s, 0, k0)->Go_0;
    assert(k1.state == UWordBoundsState::Regional(crate::word_rules::RegionalState::Half));
    assert(fwd_step(s, 1, k1) is Go);
    let k2 = fwd_step(s, 1, k1)->Go_0;
    assert(k2.state == UWordBoundsState::Regional(crate::word_rules::RegionalState::Full));
    assert(fwd_inv(s, 2, k2));
    lemma_fwd_scan_after_flag(s, 2, k2);
    assert(fwd_len(s) == fwd_scan(s, 1, k1));
    assert(fwd_scan(s, 1, k1) == fwd_scan(s, 2, k2));
    if s.len() > 2 && is_ri(s[2]) {
        assert(fwd_step(s, 2, k2) == FwdStep::Stop(2));
    }
}

/// Scanning back through Format/Extend characters after a full flag ends the
/// segment where the flag's second indicator was read.
proof fn lemma_back_after_flag(s: Seq<char>, j: int, k: BackCursor)
    requires
        back_inv(s, j, k),
        k.state == UWordBoundsState::FormatExtend(FormatExtendType::AcceptNone),
        k.savestate == UWordBoundsState::Regional(crate::word_rules::RegionalState::Full),
    ensures
        back_scan(s, j, k) == k.saveidx,
    decreases j + 1,
{
    if j >= 0 {
        lemma_back_step_inv(s, j, k);
        if let BackStep::Go(k2) = back_step(s, j, k) {
            lemma_back_after_flag(s, j - 1, k2);
        }
    }
}

/// From the back, regional indicators pair up as from the start of their
/// run: a text that ends in two of them ends in a flag when the run has an
/// even number of them, and in a lone indicator when it has an odd number
/// (WB13c).
pub proof fn law_last_segment_flag(s: Seq<char>)
    requires
        s.len() >= 2,
        is_ri(s[s.len() - 1]),
        is_ri(s[s.len() - 2]),
    ensures
        back_start(s) == if crate::word_rules::ri_count(s, s.len() as int) % 2 == 0 {
            s.len() - 2
        } else {
            s.len() - 1
        },
{
    lemma_not_pict(s[s.len() - 1]);
    lemma_not_pict(s[s.len() - 2]);
    let n = s.len() as int;
    let k0 = back_start_cursor(s);
    assert(back_step(s, n - 1, k0) is Go);
    let k1 = back_step(s, n - 1, k0)->Go_0;
    assert(k1.state == UWordBoundsState::Regional(crate::word_rules::RegionalState::Unknown));
    assert(k1.idx == n - 1);
    assert(crate::word_rules::ri_count(s, n) == crate::word_rules::ri_count(s, n - 1) + 1);
    assert(back_start(s) == back_scan(s, n - 2, k1));
    lemma_back_step_inv(s, n - 1, k0);
    lemma_back_step_inv(s, n - 2, k1);
    if crate::word_rules::ri_count(s, n - 1) % 2 == 1 {
        assert(back_step(s, n - 2, k1) is Go);
        let k2 = back_step(s, n - 2, k1)->Go_0;
        assert(k2.state == UWordBoundsState::Regional(crate::word_rules::RegionalState::Full));
        assert(back_scan(s, n - 2, k1) == back_scan(s, n - 3, k2));
        if n - 3 >= 0 {
            lemma_back_step_inv(s, n - 3, k2);
            if let BackStep::Go(k3) = back_step(s, n - 3, k2) {
                lemma_back_after_flag(s, n - 4, k3);
            }
        }
    }
}

/// Whether every character of `s` is a regional indicator.
pub open spec fn all_ri(s: Seq<char>) -> bool {
    forall|i: int| 0 <= i < s.len() ==> #[trigger] is_ri(s[i])
}

proof fn lemma_ri_count_all(s: Seq<char>, e: int)
    requires
        all_ri(s),
        0 <= e <= s.len(),
    ensures
        crate::word_rules::ri_count(s, e) == e,
    decreases e,
{
    if e > 0 {
        assert(is_ri(s[e - 1]));
        lemma_ri_count_all(s, e - 1);
    }
}

/// The length of the last flag (or lone indicator) of a run of `n` regional
/// indicators, paired from the start.
pub open spec fn last_flag_len(n: int) -> int {
    if n % 2 == 0 {
        2
    } else {
        1
    }
}

proof fn lemma_flags_fwd_len(s: Seq<char>)
    requires
        all_ri(s),
        s.len() > 0,
    ensures
        fwd_len(s) == if s.len() >= 2 {
            2int
        } else {
            1int
        },
{
    lemma_fwd_len_bounds(s);
    if s.len() >= 2 {
        assert(is_ri(s[0]) && is_ri(s[1]));
        if s.len() > 2 {
            assert(is_ri(s[2]));
        }
        law_first_segment_flag(s);
    }
}

proof fn lemma_flags_back_start(s: Seq<char>)
    requires
        all_ri(s),
        s.len() > 0,
    ensures
        back_start(s) == s.len() - last_flag_len(s.len() as int),
{
    lemma_back_start_bounds(s);
    if s.len() >= 2 {
        assert(is_ri(s[s.len() - 1]) && is_ri(s[s.len() - 2]));
        lemma_ri_count_all(s, s.len() as int);
        law_last_segment_flag(s);
    }
}

/// From the front, a run of regional indicators ends with its last flag.
proof fn lemma_flags_forward_snoc(s: Seq<char>, off: int)
    requires
        all_ri(s),
        s.len() > 0,
    ensures
        ({
            let c = last_flag_len(s.len() as int);
            let p = s.len() - c;
            bounds_forward(false, s, off) == bounds_forward(false, s.take(p), off).push(
                (off + utf8_len(s.take(p)), s.skip(p)),
            )
        }),
    decreases s.len(),
{
    let n = s.len() as int;
    let c = last_flag_len(n);
    let p = n - c;
    lemma_flags_fwd_len(s);
    if n <= 2 {
        assert(s.take(p) =~= Seq::<char>::empty());
        assert(s.skip(p) =~= s.take(fwd_len(s)));
        assert(bounds_forward(false, s.skip(fwd_len(s)), off + utf8_len(s.take(fwd_len(s))))
            =~= Seq::<(int, Seq<char>)>::empty());
        assert(bounds_forward(false, s.take(p), off) =~= Seq::<(int, Seq<char>)>::empty());
        assert(utf8_len(Seq::<char>::empty()) == 0) by {
            assert(vstd::utf8::encode_utf8(Seq::<char>::empty()) =~= Seq::<u8>::empty());
        }
    } else {
        let t = s.skip(2);
        let off2 = off + utf8_len(s.take(2));
        assert(all_ri(t));
        lemma_flags_forward_snoc(t, off2);
        let pt = t.len() - c;
        assert(last_flag_len(t.len() as int) == c);
        let h = s.take(p);
        assert(all_ri(h));
        lemma_flags_fwd_len(h);
        assert(h.take(2) =~= s.take(2));
        assert(h.skip(2) =~= t.take(pt));
        assert(t.skip(pt) =~= s.skip(p));
        crate::text::lemma_utf8_len_split(h, 2);
        assert(utf8_len(h) == utf8_len(s.take(2)) + utf8_len(t.take(pt)));
        let v = bounds_forward(false, s, off);
        let w = bounds_forward(false, t, off2);
        let vh = bounds_forward(false, h, off);
        let wh = bounds_forward(false, t.take(pt), off2);
        assert(v == seq![(off, s.take(2))] + w);
        assert(vh == seq![(off, s.take(2))] + wh);
        assert(v =~= vh.push((off + utf8_len(h), s.skip(p))));
    }
}

/// Over a run of regional indicators, iterating from the back gives the
/// flags that iterating from the front gives, in reverse order: both pair
/// the indicators from the start of the run (WB13c).
pub proof fn law_flags_both_directions(s: Seq<char>, off: int)
    requires
        all_ri(s),
    ensures
        bounds_backward(false, s, off) == bounds_forward(false, s, off).reverse(),
    decreases s.len(),
{
    if s.len() == 0 {
        assert(bounds_backward(false, s, off) =~= Seq::<(int, Seq<char>)>::empty());
        assert(bounds_forward(false, s, off) =~= Seq::<(int, Seq<char>)>::empty());
    } else {
        let n = s.len() as int;
        let p = n - last_flag_len(n);
        lemma_flags_back_start(s);
        lemma_flags_forward_snoc(s, off);
        let h = s.take(p);
        assert(all_ri(h));
        law_flags_both_directions(h, off);
        let last = (off + utf8_len(h), s.skip(p));
        let f = bounds_forward(false, h, off);
        assert(bounds_backward(false, s, off) == seq![last] + bounds_backward(false, h, off));
        assert(f.push(last).reverse() =~= seq![last] + f.reverse());
    }
}

// ---------------------------------------------------------------------------
// Everything else
/// The categories that no rule joins to what follows them, when they start
/// a segment.
pub open spec fn is_lone_cat(c: WordCat) -> bool {
    ||| c == WordCat::WC_Any
    ||| is_mid_cat(c)
    ||| c == WordCat::WC_Extend
    ||| c == WordCat::WC_Format
}

/// A segment that starts with a character of a lone category is that
/// character alone, or goes on with a Format, Extend or ZWJ character right
/// after it (WB4, WB999).
pub open spec fn lone_alone(seg: Seq<char>) -> bool {
    (seg.len() > 0 && is_lone_cat(word_cat(seg[0]))) ==> (seg.len() == 1 || is_format_extend(
        word_cat(seg[1]),
    ))
}

/// The first segment of a text that starts with a character of a lone
/// category is that character alone, unless a Format, Extend or ZWJ
/// character follows it (WB999).
pub proof fn law_first_segment_lone(s: Seq<char>)
    requires
        s.len() > 0,
        is_lone_cat(word_cat(s[0])),
        s.len() == 1 || !is_format_extend(word_cat(s[1])),
    ensures
        fwd_len(s) == 1,
{
    assert(fwd_step(s, 0, fwd_start()) == FwdStep::Stop(1));
}

/// Iterated from the front, every segment that starts with a character of a
/// lone category is that character alone, or goes on with a Format, Extend
/// or ZWJ character right after it (WB4, WB999).
pub proof fn law_lone_segments_forward(ascii: bool, s: Seq<char>, off: int)
    requires
        ascii ==> is_ascii_chars(s),
    ensures
        forall|j: int|
            0 <= j < bounds_forward(ascii, s, off).len() ==> lone_alone(
                #[trigger] bounds_forward(ascii, s, off)[j].1,
            ),
    decreases s.len(), if ascii { 1int } else { 0int },
{
    if ascii {
        law_ascii_bounds_forward(s, off);
        law_lone_segments_forward(false, s, off);
    } else if s.len() > 0 {
        let l = fwd_len(s);
        lemma_fwd_len_bounds(s);
        let rest = s.skip(l);
        let rest_off = off + utf8_len(s.take(l));
        law_lone_segments_forward(false, rest, rest_off);
        let v = bounds_forward(false, s, off);
        assert(v.drop_first() =~= bounds_forward(false, rest, rest_off));
        if is_lone_cat(word_cat(s[0])) && !(s.len() == 1 || is_format_extend(word_cat(s[1]))) {
            law_first_segment_lone(s);
        }
        assert(v[0].1 == s.take(l));
        assert(lone_alone(v[0].1));
        assert forall|j: int| 0 <= j < v.len() implies lone_alone(#[trigger] v[j].1) by {
            if j > 0 {
                assert(v[j] == v.drop_first()[j - 1]);
            }
        }
    }
}

/// A character that no rule joins to what precedes it, when it ends a
/// segment: no pictograph, and of no category, a double quote, or a middle
/// character other than the single quote.
pub open spec fn is_back_lone(c: char) -> bool {
    let cat = word_cat(c);
    &&& !is_extended_pictographic(c)
    &&& (cat == WordCat::WC_Any || (is_mid_cat(cat) && cat != WordCat::WC_Single_Quote))
}

/// The last segment of a text that ends with a character that no rule joins
/// to what precedes it is that character alone (WB999).
pub proof fn law_last_segment_lone(s: Seq<char>)
    requires
        s.len() > 0,
        is_back_lone(s[s.len() - 1]),
    ensures
        back_start(s) == s.len() - 1,
{
    assert(back_step(s, s.len() - 1, back_start_cursor(s)) == BackStep::Stop(s.len() - 1));
}

/// Iterated from the back, every segment that ends with a character that no
/// rule joins to what precedes it is that character alone (WB999).
pub proof fn law_lone_segments_backward(ascii: bool, s: Seq<char>, off: int)
    requires
        ascii ==> is_ascii_chars(s),
    ensures
        forall|j: int|
            0 <= j < bounds_backward(ascii, s, off).len() ==> ({
                let seg = #[trigger] bounds_backward(ascii, s, off)[j].1;
                seg.len() > 0 && is_back_lone(seg.last()) ==> seg.len() == 1
            }),
    decreases s.len(), if ascii { 1int } else { 0int },
{
    if ascii {
        law_ascii_bounds_backward(s, off);
        law_lone_segments_backward(false, s, off);
    } else if s.len() > 0 {
        let st = back_start(s);
        lemma_back_start_bounds(s);
        let rest = s.take(st);
        law_lone_segments_backward(false, rest, off);
        let v = bounds_backward(false, s, off);
        assert(v.drop_first() =~= bounds_backward(false, rest, off));
        assert(v[0].1 == s.skip(st));
        if is_back_lone(s[s.len() - 1]) {
            law_last_segment_lone(s);
        }
        assert forall|j: int| 0 <= j < v.len() implies ({
            let seg = #[trigger] v[j].1;
            seg.len() > 0 && is_back_lone(seg.last()) ==> seg.len() == 1
        }) by {
            if j > 0 {
                assert(v[j] == v.drop_first()[j - 1]);
            } else {
                assert(v[0].1.last() == s[s.len() - 1]);
            }
        }
    }
}

// ---------------------------------------------------------------------------
// Hebrew letter and single quote
/// A Hebrew letter with a single quote right after it, at `m - 1` and `m`.
pub open spec fn hebrew_quote_at(s: Seq<char>, m: int) -> bool {
    &&& 0 < m < s.len()
    &&& word_cat(s[m - 1]) == WordCat::WC_Hebrew_Letter
    &&& word_cat(s[m]) == WordCat::WC_Single_Quote
}

spec fn fwd_quote_inv(s: Seq<char>, m: int, j: int, k: FwdCursor) -> bool {
    &&& fwd_inv(s, j, k)
    &&& fwd_join_inv(s, j, k)
    &&& is_require_state(k.state) ==> k.saveidx != m
}

proof fn lemma_fwd_scan_keeps_quote(s: Seq<char>, m: int, j: int, k: FwdCursor)
    requires
        fwd_quote_inv(s, m, j, k),
        hebrew_quote_at(s, m),
        !is_extended_pictographic(s[m - 1]),
    ensures
        fwd_scan(s, j, k) != m,
    decreases s.len() - j,
{
    if j < s.len() {
        lemma_fwd_step_inv(s, j, k);
        lemma_fwd_join_step(s, j, k);
        if let FwdStep::Go(k2) = fwd_step(s, j, k) {
            lemma_fwd_scan_keeps_quote(s, m, j + 1, k2);
        }
    }
}

/// The first segment does not end between a Hebrew letter and a single
/// quote right after it (WB7a).
pub proof fn law_first_segment_keeps_hebrew_quote(s: Seq<char>, m: int)
    requires
        hebrew_quote_at(s, m),
    ensures
        fwd_len(s) != m,
{
    lemma_not_pict(s[m - 1]);
    lemma_fwd_scan_keeps_quote(s, m, 0, fwd_start());
}

/// The states a backward scan can be in right after it read a single quote
/// and went on.
spec fn after_quote(st: UWordBoundsState) -> bool {
    ||| st == UWordBoundsState::FormatExtend(FormatExtendType::AcceptQLetter)
    ||| st == UWordBoundsState::FormatExtend(FormatExtendType::RequireLetter)
    ||| st == UWordBoundsState::FormatExtend(FormatExtendType::RequireNumeric)
}

spec fn back_quote_inv(s: Seq<char>, m: int, j: int, k: BackCursor) -> bool {
    &&& back_inv(s, j, k)
    &&& k.state != UWordBoundsState::Emoji
    &&& k.savestate != UWordBoundsState::Emoji
    &&& k.state == UWordBoundsState::FormatExtend(FormatExtendType::AcceptNone) ==> k.saveidx != m
    &&& j == m - 1 ==> after_quote(k.state)
    &&& back_rewinds(k.state) ==> (k.saveidx != m || (j == m - 1 && k.state
        == UWordBoundsState::FormatExtend(FormatExtendType::AcceptQLetter)))
}

proof fn lemma_back_quote_step(s: Seq<char>, m: int, j: int, k: BackCursor)
    requires
        back_quote_inv(s, m, j, k),
        hebrew_quote_at(s, m),
        0 <= j,
        j != m - 1,
    ensures
        back_step(s, j, k) matches BackStep::Go(k2) ==> back_quote_inv(s, m, j - 1, k2),
        back_step(s, j, k) matches BackStep::Stop(n) ==> n != m,
{
    lemma_not_pict(s[m]);
    lemma_not_pict(s[m - 1]);
    lemma_back_step_inv(s, j, k);
}

proof fn lemma_back_scan_keeps_quote(s: Seq<char>, m: int, j: int, k: BackCursor)
    requires
        back_quote_inv(s, m, j, k),
        hebrew_quote_at(s, m),
    ensures
        back_scan(s, j, k) != m,
    decreases j + 1,
{
    if j >= 0 {
        lemma_back_step_inv(s, j, k);
        if j == m - 1 {
            assert(back_step(s, j, k) matches BackStep::Go(k2) ==> k2.state
                == UWordBoundsState::HLetter);
            if let BackStep::Go(k2) = back_step(s, j, k) {
                assert(back_quote_inv(s, m, j - 1, k2));
                lemma_back_scan_keeps_quote(s, m, j - 1, k2);
            }
        } else {
            lemma_back_quote_step(s, m, j, k);
            if let BackStep::Go(k2) = back_step(s, j, k) {
                lemma_back_scan_keeps_quote(s, m, j - 1, k2);
            }
        }
    }
}

/// The last segment does not start between a Hebrew letter and a single
/// quote right after it (WB7a).
pub proof fn law_last_segment_keeps_hebrew_quote(s: Seq<char>, m: int)
    requires
        hebrew_quote_at(s, m),
    ensures
        back_start(s) != m,
{
    lemma_back_scan_keeps_quote(s, m, s.len() - 1, back_start_cursor(s));
}

/// Iterated from the front, no segment ends between a Hebrew letter and a
/// single quote right after it (WB7a).
pub proof fn law_fwd_breaks_keep_hebrew_quote(s: Seq<char>, m: int)
    requires
        hebrew_quote_at(s, m),
    ensures
        !is_fwd_break(s, m),
    decreases s.len(),
{
    let l = fwd_len(s);
    lemma_fwd_len_bounds(s);
    law_first_segment_keeps_hebrew_quote(s, m);
    if l < m {
        let rest = s.skip(l);
        assert(rest[m - l - 1] == s[m - 1]);
        assert(rest[m - l] == s[m]);
        law_fwd_breaks_keep_hebrew_quote(rest, m - l);
    }
}

/// Iterated from the back, no segment starts between a Hebrew letter and a
/// single quote right after it (WB7a).
pub proof fn law_back_breaks_keep_hebrew_quote(s: Seq<char>, m: int)
    requires
        hebrew_quote_at(s, m),
    ensures
        !is_back_break(s, m),
    decreases s.len(),
{
    let st = back_start(s);
    lemma_back_start_bounds(s);
    law_last_segment_keeps_hebrew_quote(s, m);
    if st > m {
        let rest = s.take(st);
        assert(rest[m - 1] == s[m - 1]);
        assert(rest[m] == s[m]);
        law_back_breaks_keep_hebrew_quote(rest, m);
    }
}

} // verus!
