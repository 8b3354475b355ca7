//! Where a run of letters, digits, Katakana, connectors or horizontal spaces
//! must end: the pairs of word break categories that no rule of UAX #29
//! keeps together (WB999 against WB3d, WB4, WB5 to WB13b), stated over the
//! categories alone.
use vstd::prelude::*;
use crate::tables::{WordCat, word_cat, is_extended_pictographic};
use crate::word_rules::{
    UWordBoundsState, FwdCursor, FwdStep, BackCursor, BackStep, fwd_step, fwd_scan, fwd_start,
    fwd_len, fwd_inv, lemma_fwd_step_inv, back_step, back_scan, back_start_cursor, back_start,
    back_inv, lemma_back_step_inv, is_format_extend, lemma_fwd_len_bounds, is_require_state,
    back_rewinds, lemma_back_start_bounds,
};
use crate::tables::lemma_ascii_not_pictographic;
use crate::joining::{is_fwd_break, is_back_break};
use crate::laws::{lemma_ascii_fwd_matches, lemma_ascii_back_matches};
use crate::ascii_rules::{ascii_fwd_len, ascii_back_start, ascii_bytes};
use vstd::utf8::is_ascii_chars;

verus! {

/// The kinds of runs that the rules keep together.
pub enum RunClass {
    /// ALetter and Hebrew_Letter characters (WB5).
    Letters,
    /// Numeric characters (WB8).
    Digits,
    /// Katakana characters (WB13).
    Katakana,
    /// ExtendNumLet characters (WB13a).
    Connectors,
    /// WSegSpace characters (WB3d).
    Spaces,
}

/// Whether category `c` belongs to run class `r`.
pub open spec fn in_class(r: RunClass, c: WordCat) -> bool {
    match r {
        RunClass::Letters => c == WordCat::WC_ALetter || c == WordCat::WC_Hebrew_Letter,
        RunClass::Digits => c == WordCat::WC_Numeric,
        RunClass::Katakana => c == WordCat::WC_Katakana,
        RunClass::Connectors => c == WordCat::WC_ExtendNumLet,
        RunClass::Spaces => c == WordCat::WC_WSegSpace,
    }
}

/// Whether some rule can keep a character of category `b` with a run of
/// class `r` right before it: the run's own categories, what WB9, WB10 and
/// WB13a/b join to it, the middle characters that WB6, WB7, WB7a to WB7c,
/// WB11 and WB12 may join across, and Format, Extend and ZWJ (WB4).
pub open spec fn may_follow(r: RunClass, b: WordCat) -> bool {
    is_format_extend(b) || match r {
        RunClass::Letters => {
            ||| in_class(RunClass::Letters, b)
            ||| b == WordCat::WC_Numeric
            ||| b == WordCat::WC_ExtendNumLet
            ||| b == WordCat::WC_MidLetter
            ||| b == WordCat::WC_MidNumLet
            ||| b == WordCat::WC_Single_Quote
            ||| b == WordCat::WC_Double_Quote
        },
        RunClass::Digits => {
            ||| b == WordCat::WC_Numeric
            ||| in_class(RunClass::Letters, b)
            ||| b == WordCat::WC_ExtendNumLet
            ||| b == WordCat::WC_MidNum
            ||| b == WordCat::WC_MidNumLet
            ||| b == WordCat::WC_Single_Quote
        },
        RunClass::Katakana => b == WordCat::WC_Katakana || b == WordCat::WC_ExtendNumLet,
        RunClass::Connectors => {
            ||| b == WordCat::WC_ExtendNumLet
            ||| in_class(RunClass::Letters, b)
            ||| b == WordCat::WC_Numeric
            ||| b == WordCat::WC_Katakana
        },
        RunClass::Spaces => b == WordCat::WC_WSegSpace,
    }
}

/// Whether some rule can keep a character of category `a` with a run of
/// class `r` right after it.
pub open spec fn may_precede(r: RunClass, a: WordCat) -> bool {
    is_format_extend(a) || match r {
        RunClass::Letters => {
            ||| in_class(RunClass::Letters, a)
            ||| a == WordCat::WC_Numeric
            ||| a == WordCat::WC_ExtendNumLet
            ||| a == WordCat::WC_MidLetter
            ||| a == WordCat::WC_MidNumLet
            ||| a == WordCat::WC_Single_Quote
            ||| a == WordCat::WC_Double_Quote
        },
        RunClass::Digits => {
            ||| a == WordCat::WC_Numeric
            ||| in_class(RunClass::Letters, a)
            ||| a == WordCat::WC_ExtendNumLet
            ||| a == WordCat::WC_MidNum
            ||| a == WordCat::WC_MidNumLet
            ||| a == WordCat::WC_Single_Quote
        },
        RunClass::Katakana => a == WordCat::WC_Katakana || a == WordCat::WC_ExtendNumLet,
        RunClass::Connectors => {
            ||| a == WordCat::WC_ExtendNumLet
            ||| in_class(RunClass::Letters, a)
            ||| a == WordCat::WC_Numeric
            ||| a == WordCat::WC_Katakana
        },
        RunClass::Spaces => a == WordCat::WC_WSegSpace,
    }
}

/// The scan states in which a run of class `r` is read.
spec fn run_state(r: RunClass, st: UWordBoundsState) -> bool {
    match r {
        RunClass::Letters => st == UWordBoundsState::Letter || st == UWordBoundsState::HLetter,
        RunClass::Digits => st == UWordBoundsState::Numeric,
        RunClass::Katakana => st == UWordBoundsState::Katakana,
        RunClass::Connectors => st == UWordBoundsState::ExtendNumLet,
        RunClass::Spaces => st == UWordBoundsState::WSegSpace,
    }
}

proof fn lemma_fwd_run(s: Seq<char>, r: RunClass, m: int, j: int, k: FwdCursor)
    requires
        0 < m < s.len(),
        forall|i: int| 0 <= i < m ==> in_class(r, #[trigger] word_cat(s[i])),
        !may_follow(r, word_cat(s[m])),
        fwd_inv(s, j, k),
        j <= m,
        j > 0 ==> run_state(r, k.state) && !k.skipped,
    ensures
        fwd_scan(s, j, k) == m,
    decreases m - j,
{
    lemma_fwd_step_inv(s, j, k);
    assert(in_class(r, word_cat(s[j - 1])) || j == 0);
    if j < m {
        assert(in_class(r, word_cat(s[j])));
        assert(fwd_step(s, j, k) is Go);
        let k2 = fwd_step(s, j, k)->Go_0;
        lemma_fwd_run(s, r, m, j + 1, k2);
    } else {
        assert(fwd_step(s, j, k) == FwdStep::Stop(m));
    }
}

/// The first segment of a text that starts with a run of class `r` ends with
/// that run when the character after it is one that no rule keeps with the
/// run: Katakana and a letter, letters and a comma, digits and Katakana are
/// all split.
pub proof fn law_first_segment_run_ends(s: Seq<char>, r: RunClass, m: int)
    requires
        0 < m < s.len(),
        forall|i: int| 0 <= i < m ==> in_class(r, #[trigger] word_cat(s[i])),
        !may_follow(r, word_cat(s[m])),
    ensures
        fwd_len(s) == m,
{
    lemma_fwd_run(s, r, m, 0, fwd_start());
}

proof fn lemma_back_run(s: Seq<char>, r: RunClass, m: int, j: int, k: BackCursor)
    requires
        0 < m < s.len(),
        forall|i: int| m <= i < s.len() ==> in_class(r, #[trigger] word_cat(s[i])),
        !is_extended_pictographic(s[s.len() - 1]),
        !may_precede(r, word_cat(s[m - 1])),
        back_inv(s, j, k),
        m - 1 <= j,
        j < s.len() - 1 ==> run_state(r, k.state) && !k.skipped,
    ensures
        back_scan(s, j, k) == m,
    decreases j,
{
    lemma_back_step_inv(s, j, k);
    if j >= m {
        assert(in_class(r, word_cat(s[j])));
        assert(back_step(s, j, k) is Go);
        let k2 = back_step(s, j, k)->Go_0;
        lemma_back_run(s, r, m, j - 1, k2);
    } else {
        assert(back_step(s, j, k) == BackStep::Stop(m));
    }
}

/// The last segment of a text that ends with a run of class `r` (its last
/// character no pictograph) starts with that run when the character before
/// it is one that no rule keeps with the run.
pub proof fn law_last_segment_run_starts(s: Seq<char>, r: RunClass, m: int)
    requires
        0 < m < s.len(),
        forall|i: int| m <= i < s.len() ==> in_class(r, #[trigger] word_cat(s[i])),
        !is_extended_pictographic(s[s.len() - 1]),
        !may_precede(r, word_cat(s[m - 1])),
    ensures
        back_start(s) == m,
{
    lemma_back_run(s, r, m, s.len() - 1, back_start_cursor(s));
}

/// Iterated from the front, a run of class `r` that starts at a boundary
/// ends at one when the character after it is one that no rule keeps with
/// the run.
pub proof fn law_fwd_breaks_run_ends(s: Seq<char>, r: RunClass, p: int, m: int)
    requires
        0 <= p < m < s.len(),
        p == 0 || is_fwd_break(s, p),
        forall|i: int| p <= i < m ==> in_class(r, #[trigger] word_cat(s[i])),
        !may_follow(r, word_cat(s[m])),
    ensures
        is_fwd_break(s, m),
    decreases s.len(),
{
    let l = fwd_len(s);
    lemma_fwd_len_bounds(s);
    if p == 0 {
        law_first_segment_run_ends(s, r, m);
    } else {
        let rest = s.skip(l);
        assert(p >= l);
        assert forall|i: int| p - l <= i < m - l implies in_class(r, #[trigger] word_cat(rest[i])) by {
            assert(rest[i] == s[i + l]);
            assert(in_class(r, word_cat(s[i + l])));
        }
        assert(rest[m - l] == s[m]);
        law_fwd_breaks_run_ends(rest, r, p - l, m - l);
    }
}

/// Iterated from the back, a run of class `r` that ends at a boundary (its
/// last character no pictograph) starts at one when the character before it
/// is one that no rule keeps with the run.
pub proof fn law_back_breaks_run_starts(s: Seq<char>, r: RunClass, m: int, p: int)
    requires
        0 < m < p <= s.len(),
        p == s.len() || is_back_break(s, p),
        forall|i: int| m <= i < p ==> in_class(r, #[trigger] word_cat(s[i])),
        !is_extended_pictographic(s[p - 1]),
        !may_precede(r, word_cat(s[m - 1])),
    ensures
        is_back_break(s, m),
    decreases s.len(),
{
    let st = back_start(s);
    lemma_back_start_bounds(s);
    if p == s.len() {
        law_last_segment_run_starts(s, r, m);
    } else {
        let rest = s.take(st);
        assert(p <= st);
        assert forall|i: int| m <= i < p implies in_class(r, #[trigger] word_cat(rest[i])) by {
            assert(rest[i] == s[i]);
            assert(in_class(r, word_cat(s[i])));
        }
        assert(rest[m - 1] == s[m - 1]);
        assert(rest[p - 1] == s[p - 1]);
        law_back_breaks_run_starts(rest, r, m, p);
    }
}

/// On ASCII text the fast path ends a leading run where the general rules
/// do.
pub proof fn law_ascii_first_segment_run_ends(s: Seq<char>, r: RunClass, m: int)
    requires
        is_ascii_chars(s),
        0 < m < s.len(),
        forall|i: int| 0 <= i < m ==> in_class(r, #[trigger] word_cat(s[i])),
        !may_follow(r, word_cat(s[m])),
    ensures
        ascii_fwd_len(ascii_bytes(s)) == m,
{
    law_first_segment_run_ends(s, r, m);
    lemma_ascii_fwd_matches(s);
}

/// On ASCII text the fast path starts a trailing run where the general
/// rules do.
pub proof fn law_ascii_last_segment_run_starts(s: Seq<char>, r: RunClass, m: int)
    requires
        is_ascii_chars(s),
        0 < m < s.len(),
        forall|i: int| m <= i < s.len() ==> in_class(r, #[trigger] word_cat(s[i])),
        !may_precede(r, word_cat(s[m - 1])),
    ensures
        ascii_back_start(ascii_bytes(s)) == m,
{
    assert('\0' <= s[s.len() - 1] <= '\u{7f}');
    lemma_ascii_not_pictographic(s[s.len() - 1]);
    law_last_segment_run_starts(s, r, m);
    lemma_ascii_back_matches(s);
}

// ---------------------------------------------------------------------------
// A middle character that nothing completes
/// The middle characters that WB6, WB7, WB7b, WB11 and WB12 may join a run of
/// class `r` across.
pub open spec fn mid_for(r: RunClass, c: WordCat) -> bool {
    match r {
        RunClass::Letters => {
            ||| c == WordCat::WC_MidLetter
            ||| c == WordCat::WC_MidNumLet
            ||| c == WordCat::WC_Single_Quote
            ||| c == WordCat::WC_Double_Quote
        },
        RunClass::Digits => {
            ||| c == WordCat::WC_MidNum
            ||| c == WordCat::WC_MidNumLet
            ||| c == WordCat::WC_Single_Quote
        },
        _ => false,
    }
}

proof fn lemma_fwd_run_to(s: Seq<char>, r: RunClass, m: int, j: int, k: FwdCursor) -> (k2:
    FwdCursor)
    requires
        0 < m <= s.len(),
        forall|i: int| 0 <= i < m ==> in_class(r, #[trigger] word_cat(s[i])),
        fwd_inv(s, j, k),
        j <= m,
        j > 0 ==> run_state(r, k.state) && !k.skipped,
        j > 0 ==> (k.state == UWordBoundsState::HLetter <==> word_cat(s[j - 1])
            == WordCat::WC_Hebrew_Letter),
    ensures
        fwd_inv(s, m, k2),
        run_state(r, k2.state),
        !k2.skipped,
        k2.state == UWordBoundsState::HLetter <==> word_cat(s[m - 1]) == WordCat::WC_Hebrew_Letter,
        fwd_scan(s, j, k) == fwd_scan(s, m, k2),
    decreases m - j,
{
    if j < m {
        lemma_fwd_step_inv(s, j, k);
        assert(in_class(r, word_cat(s[j - 1])) || j == 0);
        assert(in_class(r, word_cat(s[j])));
        assert(fwd_step(s, j, k) is Go);
        let k2 = fwd_step(s, j, k)->Go_0;
        assert(fwd_scan(s, j, k) == fwd_scan(s, j + 1, k2));
        lemma_fwd_run_to(s, r, m, j + 1, k2)
    } else {
        assert(in_class(r, word_cat(s[j - 1])));
        k
    }
}

/// The first segment of a text that starts with a run of letters or digits
/// and a middle character ends before that character when nothing after it
/// completes the join (WB6, WB7, WB11 and WB12 need a letter or a digit
/// after it), unless a Hebrew letter keeps a single quote (WB7a).
pub proof fn law_first_segment_mid_unfinished(s: Seq<char>, r: RunClass, m: int)
    requires
        0 < m < s.len(),
        forall|i: int| 0 <= i < m ==> in_class(r, #[trigger] word_cat(s[i])),
        mid_for(r, word_cat(s[m])),
        !(word_cat(s[m - 1]) == WordCat::WC_Hebrew_Letter && word_cat(s[m])
            == WordCat::WC_Single_Quote),
        m + 1 == s.len() || !(in_class(r, word_cat(s[m + 1])) || is_format_extend(
            word_cat(s[m + 1]),
        )),
    ensures
        fwd_len(s) == m,
{
    let k = lemma_fwd_run_to(s, r, m, 0, fwd_start());
    assert(fwd_len(s) == fwd_scan(s, m, k));
    lemma_fwd_step_inv(s, m, k);
    assert(word_cat(s[m - 1]) == k.cat);
    match fwd_step(s, m, k) {
        FwdStep::Go(k2) => {
            assert(is_require_state(k2.state) && k2.saveidx == m);
            assert(fwd_scan(s, m, k) == fwd_scan(s, m + 1, k2));
            if m + 1 < s.len() {
                lemma_fwd_step_inv(s, m + 1, k2);
                assert(fwd_step(s, m + 1, k2) == FwdStep::Stop(m));
            } else {
                assert(fwd_scan(s, m + 1, k2) == m);
            }
        },
        FwdStep::Stop(n) => {
            assert(n == m);
        },
    }
}

proof fn lemma_back_run_to(s: Seq<char>, r: RunClass, m: int, j: int, k: BackCursor) -> (k2:
    BackCursor)
    requires
        0 < m < s.len(),
        forall|i: int| m <= i < s.len() ==> in_class(r, #[trigger] word_cat(s[i])),
        !is_extended_pictographic(s[s.len() - 1]),
        back_inv(s, j, k),
        m - 1 <= j,
        j < s.len() - 1 ==> run_state(r, k.state) && !k.skipped,
    ensures
        back_inv(s, m - 1, k2),
        run_state(r, k2.state),
        !k2.skipped,
        back_scan(s, j, k) == back_scan(s, m - 1, k2),
    decreases j,
{
    lemma_back_step_inv(s, j, k);
    if j >= m {
        assert(in_class(r, word_cat(s[j])));
        assert(back_step(s, j, k) is Go);
        let k2 = back_step(s, j, k)->Go_0;
        lemma_back_run_to(s, r, m, j - 1, k2)
    } else {
        k
    }
}

/// The last segment of a text that ends with a middle character and a run
/// of letters or digits (its last character no pictograph) starts after
/// that character when nothing before it completes the join.
pub proof fn law_last_segment_mid_unfinished(s: Seq<char>, r: RunClass, m: int)
    requires
        1 < m < s.len(),
        forall|i: int| m <= i < s.len() ==> in_class(r, #[trigger] word_cat(s[i])),
        !is_extended_pictographic(s[s.len() - 1]),
        mid_for(r, word_cat(s[m - 1])),
        m - 2 < 0 || !(in_class(r, word_cat(s[m - 2])) || is_format_extend(word_cat(s[m - 2]))),
    ensures
        back_start(s) == m,
{
    let k = lemma_back_run_to(s, r, m, s.len() - 1, back_start_cursor(s));
    assert(back_start(s) == back_scan(s, m - 1, k));
    lemma_back_step_inv(s, m - 1, k);
    match back_step(s, m - 1, k) {
        BackStep::Go(k2) => {
            assert(back_rewinds(k2.state) && k2.saveidx == m);
            assert(back_scan(s, m - 1, k) == back_scan(s, m - 2, k2));
            lemma_back_step_inv(s, m - 2, k2);
            assert(back_step(s, m - 2, k2) == BackStep::Stop(m));
        },
        BackStep::Stop(n) => {
            assert(n == m);
        },
    }
}

} // verus!
