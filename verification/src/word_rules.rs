//! The word boundary rules of UAX #29 as the segmenter applies them: a
//! forward and a backward scan over the categories of a character sequence,
//! each giving the extent of the segment at that end.
use vstd::prelude::*;
use crate::tables::{WordCat, word_cat, is_extended_pictographic};

verus! {

/// The state of a boundary scan: the kind of segment seen so far.
#[derive(Clone, Copy, PartialEq, Eq, Debug, Structural)]
pub enum UWordBoundsState {
    Start,
    Letter,
    HLetter,
    Numeric,
    Katakana,
    ExtendNumLet,
    Regional(RegionalState),
    FormatExtend(FormatExtendType),
    Zwj,
    Emoji,
    WSegSpace,
}

/// What a scan inside a run of Format/Extend characters, or after a middle
/// character, waits for.
#[derive(Clone, Copy, PartialEq, Eq, Debug, Structural)]
pub enum FormatExtendType {
    AcceptAny,
    AcceptNone,
    RequireLetter,
    RequireHLetter,
    AcceptQLetter,
    RequireNumeric,
}

/// How many regional indicators of a flag a scan has seen.
#[derive(Clone, Copy, PartialEq, Eq, Debug, Structural)]
pub enum RegionalState {
    Half,
    Full,
    Unknown,
}

/// Format, Extend and ZWJ: the characters that rule WB4 folds into what
/// precedes them.
pub open spec fn is_format_extend(c: WordCat) -> bool {
    c == WordCat::WC_Extend || c == WordCat::WC_Format || c == WordCat::WC_ZWJ
}

/// A state that waits for a letter or a digit after a middle character.
pub open spec fn is_require_state(st: UWordBoundsState) -> bool {
    ||| st == UWordBoundsState::FormatExtend(FormatExtendType::RequireLetter)
    ||| st == UWordBoundsState::FormatExtend(FormatExtendType::RequireHLetter)
    ||| st == UWordBoundsState::FormatExtend(FormatExtendType::RequireNumeric)
}

// ---------------------------------------------------------------------------
// Forward scan
/// Where a forward scan stands before it reads the next character.
pub struct FwdCursor {
    pub state: UWordBoundsState,
    /// The category of the character read last.
    pub cat: WordCat,
    /// Where the segment ends if a pending middle character is not followed
    /// by what it needs.
    pub saveidx: int,
    pub savecat: WordCat,
    /// Whether Format/Extend characters were folded in.
    pub skipped: bool,
}

/// One step of a scan: read on with a new cursor, or stop with an index.
pub enum FwdStep {
    Go(FwdCursor),
    Stop(int),
}

pub open spec fn fwd_start() -> FwdCursor {
    FwdCursor {
        state: UWordBoundsState::Start,
        cat: WordCat::WC_Any,
        saveidx: 0,
        savecat: WordCat::WC_Any,
        skipped: false,
    }
}

pub open spec fn fwd_go(k: FwdCursor, state: UWordBoundsState) -> FwdStep {
    FwdStep::Go(FwdCursor { state: state, ..k })
}

pub open spec fn fwd_go_save(k: FwdCursor, state: UWordBoundsState, i: int) -> FwdStep {
    FwdStep::Go(FwdCursor { state: state, saveidx: i, savecat: k.cat, ..k })
}

/// The rules applied to character `i`, whose category `k.cat` holds, once
/// WB4 and WB3c have not claimed it. A `Stop` carries the segment's length.
pub open spec fn fwd_rules(s: Seq<char>, i: int, k: FwdCursor) -> FwdStep {
    let cat = k.cat;
    match k.state {
        UWordBoundsState::Start => {
            if cat == WordCat::WC_CR {
                if i + 1 < s.len() && word_cat(s[i + 1]) == WordCat::WC_LF {
                    FwdStep::Stop(i + 2)
                } else {
                    FwdStep::Stop(i + 1)
                }
            } else if cat == WordCat::WC_ALetter {
                fwd_go(k, UWordBoundsState::Letter)
            } else if cat == WordCat::WC_Hebrew_Letter {
                fwd_go(k, UWordBoundsState::HLetter)
            } else if cat == WordCat::WC_Numeric {
                fwd_go(k, UWordBoundsState::Numeric)
            } else if cat == WordCat::WC_Katakana {
                fwd_go(k, UWordBoundsState::Katakana)
            } else if cat == WordCat::WC_ExtendNumLet {
                fwd_go(k, UWordBoundsState::ExtendNumLet)
            } else if cat == WordCat::WC_Regional_Indicator {
                fwd_go(k, UWordBoundsState::Regional(RegionalState::Half))
            } else if cat == WordCat::WC_LF || cat == WordCat::WC_Newline {
                FwdStep::Stop(i + 1)
            } else if cat == WordCat::WC_ZWJ {
                fwd_go(k, UWordBoundsState::Zwj)
            } else if cat == WordCat::WC_WSegSpace {
                fwd_go(k, UWordBoundsState::WSegSpace)
            } else if i + 1 < s.len() && is_format_extend(word_cat(s[i + 1])) {
                fwd_go(k, UWordBoundsState::FormatExtend(FormatExtendType::AcceptNone))
            } else {
                FwdStep::Stop(i + 1)
            }
        },
        UWordBoundsState::WSegSpace => {
            if cat == WordCat::WC_WSegSpace && !k.skipped {
                fwd_go(k, UWordBoundsState::WSegSpace)
            } else {
                FwdStep::Stop(i)
            }
        },
        UWordBoundsState::Zwj => FwdStep::Stop(i),
        UWordBoundsState::Letter | UWordBoundsState::HLetter => {
            if cat == WordCat::WC_ALetter {
                fwd_go(k, UWordBoundsState::Letter)
            } else if cat == WordCat::WC_Hebrew_Letter {
                fwd_go(k, UWordBoundsState::HLetter)
            } else if cat == WordCat::WC_Numeric {
                fwd_go(k, UWordBoundsState::Numeric)
            } else if cat == WordCat::WC_ExtendNumLet {
                fwd_go(k, UWordBoundsState::ExtendNumLet)
            } else if cat == WordCat::WC_Double_Quote && k.state == UWordBoundsState::HLetter {
                fwd_go_save(k, UWordBoundsState::FormatExtend(FormatExtendType::RequireHLetter), i)
            } else if cat == WordCat::WC_Single_Quote && k.state == UWordBoundsState::HLetter {
                fwd_go(k, UWordBoundsState::FormatExtend(FormatExtendType::AcceptQLetter))
            } else if cat == WordCat::WC_MidLetter || cat == WordCat::WC_MidNumLet || cat
                == WordCat::WC_Single_Quote {
                fwd_go_save(k, UWordBoundsState::FormatExtend(FormatExtendType::RequireLetter), i)
            } else {
                FwdStep::Stop(i)
            }
        },
        UWordBoundsState::Numeric => {
            if cat == WordCat::WC_Numeric {
                fwd_go(k, UWordBoundsState::Numeric)
            } else if cat == WordCat::WC_ALetter {
                fwd_go(k, UWordBoundsState::Letter)
            } else if cat == WordCat::WC_Hebrew_Letter {
                fwd_go(k, UWordBoundsState::HLetter)
            } else if cat == WordCat::WC_ExtendNumLet {
                fwd_go(k, UWordBoundsState::ExtendNumLet)
            } else if cat == WordCat::WC_MidNum || cat == WordCat::WC_MidNumLet || cat
                == WordCat::WC_Single_Quote {
                fwd_go_save(k, UWordBoundsState::FormatExtend(FormatExtendType::RequireNumeric), i)
            } else {
                FwdStep::Stop(i)
            }
        },
        UWordBoundsState::Katakana => {
            if cat == WordCat::WC_Katakana {
                fwd_go(k, UWordBoundsState::Katakana)
            } else if cat == WordCat::WC_ExtendNumLet {
                fwd_go(k, UWordBoundsState::ExtendNumLet)
            } else {
                FwdStep::Stop(i)
            }
        },
        UWordBoundsState::ExtendNumLet => {
            if cat == WordCat::WC_ExtendNumLet {
                fwd_go(k, UWordBoundsState::ExtendNumLet)
            } else if cat == WordCat::WC_ALetter {
                fwd_go(k, UWordBoundsState::Letter)
            } else if cat == WordCat::WC_Hebrew_Letter {
                fwd_go(k, UWordBoundsState::HLetter)
            } else if cat == WordCat::WC_Numeric {
                fwd_go(k, UWordBoundsState::Numeric)
            } else if cat == WordCat::WC_Katakana {
                fwd_go(k, UWordBoundsState::Katakana)
            } else {
                FwdStep::Stop(i)
            }
        },
        UWordBoundsState::Regional(rs) => {
            if rs == RegionalState::Half && cat == WordCat::WC_Regional_Indicator {
                fwd_go(k, UWordBoundsState::Regional(RegionalState::Full))
            } else {
                FwdStep::Stop(i)
            }
        },
        UWordBoundsState::Emoji => FwdStep::Stop(i),
        UWordBoundsState::FormatExtend(t) => {
            if t == FormatExtendType::RequireNumeric && cat == WordCat::WC_Numeric {
                fwd_go(k, UWordBoundsState::Numeric)
            } else if (t == FormatExtendType::RequireLetter || t == FormatExtendType::AcceptQLetter)
                && cat == WordCat::WC_ALetter {
                fwd_go(k, UWordBoundsState::Letter)
            } else if (t == FormatExtendType::RequireLetter || t == FormatExtendType::AcceptQLetter)
                && cat == WordCat::WC_Hebrew_Letter {
                fwd_go(k, UWordBoundsState::HLetter)
            } else if t == FormatExtendType::RequireHLetter && cat == WordCat::WC_Hebrew_Letter {
                fwd_go(k, UWordBoundsState::HLetter)
            } else if t == FormatExtendType::AcceptNone || t == FormatExtendType::AcceptQLetter {
                FwdStep::Stop(i)
            } else if t == FormatExtendType::AcceptAny {
                FwdStep::Stop(i + 1)
            } else {
                FwdStep::Stop(k.saveidx)
            }
        },
    }
}

/// Reading character `i` forward: WB4 folds Format/Extend/ZWJ into what
/// precedes them, WB3c joins an emoji to a preceding ZWJ, and the other
/// rules go by the scan's state.
pub open spec fn fwd_step(s: Seq<char>, i: int, k: FwdCursor) -> FwdStep {
    let ch = s[i];
    let cat = word_cat(ch);
    let prev_zwj = k.cat == WordCat::WC_ZWJ;
    let k1 = FwdCursor { cat: cat, ..k };
    if k.state != UWordBoundsState::Start && is_format_extend(cat) {
        FwdStep::Go(FwdCursor { skipped: true, ..k1 })
    } else if prev_zwj && is_extended_pictographic(ch) {
        FwdStep::Go(FwdCursor { state: UWordBoundsState::Emoji, ..k1 })
    } else {
        fwd_rules(s, i, k1)
    }
}

/// The segment length when the scan runs out of characters: a pending middle
/// character is left out.
pub open spec fn fwd_finish(s: Seq<char>, k: FwdCursor) -> int {
    if is_require_state(k.state) {
        k.saveidx
    } else {
        s.len() as int
    }
}

/// The length of the first segment, scanning from character `i` on.
pub open spec fn fwd_scan(s: Seq<char>, i: int, k: FwdCursor) -> int
    decreases s.len() - i,
{
    if i >= s.len() {
        fwd_finish(s, k)
    } else {
        match fwd_step(s, i, k) {
            FwdStep::Go(k2) => fwd_scan(s, i + 1, k2),
            FwdStep::Stop(n) => n,
        }
    }
}

/// The number of characters in the first word-bound segment of `s`.
pub open spec fn fwd_len(s: Seq<char>) -> int {
    fwd_scan(s, 0, fwd_start())
}

/// What a forward scan keeps true of its cursor before reading character `i`.
pub open spec fn fwd_inv(s: Seq<char>, i: int, k: FwdCursor) -> bool {
    &&& 0 <= i <= s.len()
    &&& i == 0 ==> k == fwd_start()
    &&& i > 0 ==> k.state != UWordBoundsState::Start
    &&& k.state != UWordBoundsState::Regional(RegionalState::Unknown)
    &&& k.state != UWordBoundsState::FormatExtend(FormatExtendType::AcceptAny)
    &&& is_require_state(k.state) ==> 1 <= k.saveidx < i && k.savecat == word_cat(s[k.saveidx])
    &&& i > 0 ==> k.cat == word_cat(s[i - 1])
}

pub proof fn lemma_fwd_step_inv(s: Seq<char>, i: int, k: FwdCursor)
    requires
        fwd_inv(s, i, k),
        i < s.len(),
    ensures
        fwd_step(s, i, k) matches FwdStep::Go(k2) ==> fwd_inv(s, i + 1, k2),
        fwd_step(s, i, k) matches FwdStep::Stop(n) ==> 1 <= n <= s.len() && (i > 0 ==> n <= i
            + 1),
{
}

pub proof fn lemma_fwd_scan_bounds(s: Seq<char>, i: int, k: FwdCursor)
    requires
        fwd_inv(s, i, k),
        s.len() > 0,
    ensures
        1 <= fwd_scan(s, i, k) <= s.len(),
    decreases s.len() - i,
{
    if i < s.len() {
        lemma_fwd_step_inv(s, i, k);
        if let FwdStep::Go(k2) = fwd_step(s, i, k) {
            lemma_fwd_scan_bounds(s, i + 1, k2);
        }
    }
}

/// A non-empty sequence has a first segment of at least one character.
pub proof fn lemma_fwd_len_bounds(s: Seq<char>)
    requires
        s.len() > 0,
    ensures
        1 <= fwd_len(s) <= s.len(),
{
    lemma_fwd_scan_bounds(s, 0, fwd_start());
}

// ---------------------------------------------------------------------------
// Backward scan
/// Where a backward scan stands before it reads the next character (to the
/// left).
pub struct BackCursor {
    pub state: UWordBoundsState,
    /// The state to resume after a run of Format/Extend characters.
    pub savestate: UWordBoundsState,
    /// Where the segment starts if what is pending is not completed.
    pub saveidx: int,
    /// The index of the character read last.
    pub idx: int,
    /// Whether Format/Extend characters were folded in.
    pub skipped: bool,
}

/// One step of a backward scan: read on with a new cursor, or stop with the
/// index where the segment starts.
pub enum BackStep {
    Go(BackCursor),
    Stop(int),
}

pub open spec fn back_start_cursor(s: Seq<char>) -> BackCursor {
    BackCursor {
        state: UWordBoundsState::Start,
        savestate: UWordBoundsState::Start,
        saveidx: s.len() - 1,
        idx: s.len() - 1,
        skipped: false,
    }
}

pub open spec fn back_go(k: BackCursor, state: UWordBoundsState) -> BackStep {
    BackStep::Go(BackCursor { state: state, ..k })
}

pub open spec fn back_go_save(k: BackCursor, state: UWordBoundsState, save: int) -> BackStep {
    BackStep::Go(BackCursor { state: state, saveidx: save, ..k })
}

/// The number of regional indicators that end `s.take(end)`, not counting
/// the Format, Extend and ZWJ characters among them.
pub open spec fn ri_count(s: Seq<char>, end: int) -> nat
    decreases end,
{
    if end <= 0 {
        0
    } else {
        let c = word_cat(s[end - 1]);
        if is_format_extend(c) {
            ri_count(s, end - 1)
        } else if c == WordCat::WC_Regional_Indicator {
            ri_count(s, end - 1) + 1
        } else {
            0
        }
    }
}

/// The rules applied to character `i` read backward, once WB4 has not
/// claimed it; `previdx` is where the segment starts if `i` is left out. A
/// `Stop` carries the segment's start.
pub open spec fn back_rules(s: Seq<char>, i: int, k: BackCursor, previdx: int) -> BackStep {
    let ch = s[i];
    let cat = word_cat(ch);
    match k.state {
        UWordBoundsState::Start | UWordBoundsState::FormatExtend(FormatExtendType::AcceptAny) => {
            if is_extended_pictographic(ch) {
                back_go(k, UWordBoundsState::Zwj)
            } else if cat == WordCat::WC_ALetter {
                back_go(k, UWordBoundsState::Letter)
            } else if cat == WordCat::WC_Hebrew_Letter {
                back_go(k, UWordBoundsState::HLetter)
            } else if cat == WordCat::WC_Numeric {
                back_go(k, UWordBoundsState::Numeric)
            } else if cat == WordCat::WC_Katakana {
                back_go(k, UWordBoundsState::Katakana)
            } else if cat == WordCat::WC_ExtendNumLet {
                back_go(k, UWordBoundsState::ExtendNumLet)
            } else if cat == WordCat::WC_Regional_Indicator {
                back_go(k, UWordBoundsState::Regional(RegionalState::Unknown))
            } else if is_format_extend(cat) {
                back_go(k, UWordBoundsState::FormatExtend(FormatExtendType::AcceptAny))
            } else if cat == WordCat::WC_Single_Quote {
                back_go_save(k, UWordBoundsState::FormatExtend(FormatExtendType::AcceptQLetter), i)
            } else if cat == WordCat::WC_WSegSpace {
                back_go(k, UWordBoundsState::WSegSpace)
            } else if cat == WordCat::WC_CR || cat == WordCat::WC_LF || cat == WordCat::WC_Newline {
                if k.state == UWordBoundsState::Start {
                    if cat == WordCat::WC_LF && i > 0 && word_cat(s[i - 1]) == WordCat::WC_CR {
                        BackStep::Stop(i - 1)
                    } else {
                        BackStep::Stop(i)
                    }
                } else {
                    BackStep::Stop(previdx)
                }
            } else {
                BackStep::Stop(i)
            }
        },
        UWordBoundsState::Zwj => {
            if cat == WordCat::WC_ZWJ {
                back_go(k, UWordBoundsState::FormatExtend(FormatExtendType::AcceptAny))
            } else {
                BackStep::Stop(previdx)
            }
        },
        UWordBoundsState::WSegSpace => {
            if cat == WordCat::WC_WSegSpace && !k.skipped {
                back_go(k, UWordBoundsState::WSegSpace)
            } else {
                BackStep::Stop(previdx)
            }
        },
        UWordBoundsState::Letter | UWordBoundsState::HLetter => {
            if cat == WordCat::WC_ALetter {
                back_go(k, UWordBoundsState::Letter)
            } else if cat == WordCat::WC_Hebrew_Letter {
                back_go(k, UWordBoundsState::HLetter)
            } else if cat == WordCat::WC_Numeric {
                back_go(k, UWordBoundsState::Numeric)
            } else if cat == WordCat::WC_ExtendNumLet {
                back_go(k, UWordBoundsState::ExtendNumLet)
            } else if cat == WordCat::WC_Double_Quote && k.state == UWordBoundsState::HLetter {
                back_go_save(
                    k,
                    UWordBoundsState::FormatExtend(FormatExtendType::RequireHLetter),
                    previdx,
                )
            } else if cat == WordCat::WC_MidLetter || cat == WordCat::WC_MidNumLet || cat
                == WordCat::WC_Single_Quote {
                back_go_save(
                    k,
                    UWordBoundsState::FormatExtend(FormatExtendType::RequireLetter),
                    previdx,
                )
            } else {
                BackStep::Stop(previdx)
            }
        },
        UWordBoundsState::Numeric => {
            if cat == WordCat::WC_Numeric {
                back_go(k, UWordBoundsState::Numeric)
            } else if cat == WordCat::WC_ALetter {
                back_go(k, UWordBoundsState::Letter)
            } else if cat == WordCat::WC_Hebrew_Letter {
                back_go(k, UWordBoundsState::HLetter)
            } else if cat == WordCat::WC_ExtendNumLet {
                back_go(k, UWordBoundsState::ExtendNumLet)
            } else if cat == WordCat::WC_MidNum || cat == WordCat::WC_MidNumLet || cat
                == WordCat::WC_Single_Quote {
                back_go_save(
                    k,
                    UWordBoundsState::FormatExtend(FormatExtendType::RequireNumeric),
                    previdx,
                )
            } else {
                BackStep::Stop(previdx)
            }
        },
        UWordBoundsState::Katakana => {
            if cat == WordCat::WC_Katakana {
                back_go(k, UWordBoundsState::Katakana)
            } else if cat == WordCat::WC_ExtendNumLet {
                back_go(k, UWordBoundsState::ExtendNumLet)
            } else {
                BackStep::Stop(previdx)
            }
        },
        UWordBoundsState::ExtendNumLet => {
            if cat == WordCat::WC_ExtendNumLet {
                back_go(k, UWordBoundsState::ExtendNumLet)
            } else if cat == WordCat::WC_ALetter {
                back_go(k, UWordBoundsState::Letter)
            } else if cat == WordCat::WC_Hebrew_Letter {
                back_go(k, UWordBoundsState::HLetter)
            } else if cat == WordCat::WC_Numeric {
                back_go(k, UWordBoundsState::Numeric)
            } else if cat == WordCat::WC_Katakana {
                back_go(k, UWordBoundsState::Katakana)
            } else {
                BackStep::Stop(previdx)
            }
        },
        UWordBoundsState::Regional(rs) => {
            if cat == WordCat::WC_Regional_Indicator {
                let rs2 = if rs == RegionalState::Unknown {
                    if ri_count(s, previdx) % 2 == 0 {
                        RegionalState::Full
                    } else {
                        RegionalState::Half
                    }
                } else {
                    rs
                };
                if rs2 == RegionalState::Full {
                    BackStep::Stop(previdx)
                } else {
                    back_go(k, UWordBoundsState::Regional(RegionalState::Full))
                }
            } else {
                BackStep::Stop(previdx)
            }
        },
        UWordBoundsState::Emoji => {
            if is_extended_pictographic(ch) {
                back_go(k, UWordBoundsState::Zwj)
            } else {
                BackStep::Stop(previdx)
            }
        },
        UWordBoundsState::FormatExtend(t) => {
            if t == FormatExtendType::RequireNumeric && cat == WordCat::WC_Numeric {
                back_go(k, UWordBoundsState::Numeric)
            } else if t == FormatExtendType::RequireLetter && cat == WordCat::WC_ALetter {
                back_go(k, UWordBoundsState::Letter)
            } else if t == FormatExtendType::RequireLetter && cat == WordCat::WC_Hebrew_Letter {
                back_go(k, UWordBoundsState::HLetter)
            } else if t == FormatExtendType::AcceptQLetter && cat == WordCat::WC_Hebrew_Letter {
                back_go(k, UWordBoundsState::HLetter)
            } else if t == FormatExtendType::RequireHLetter && cat == WordCat::WC_Hebrew_Letter {
                back_go(k, UWordBoundsState::HLetter)
            } else if back_rewinds(k.state) {
                BackStep::Stop(k.saveidx)
            } else {
                BackStep::Stop(i)
            }
        },
    }
}

/// The states in which a backward scan that ends gives up what it has read
/// since `saveidx`.
pub open spec fn back_rewinds(st: UWordBoundsState) -> bool {
    ||| is_require_state(st)
    ||| st == UWordBoundsState::FormatExtend(FormatExtendType::AcceptNone)
    ||| st == UWordBoundsState::FormatExtend(FormatExtendType::AcceptQLetter)
}

/// Reading character `i` backward. WB4 folds Format/Extend (and a ZWJ that
/// does not continue an emoji sequence) into the character to their left:
/// the scan remembers its state and resumes it at the next other character.
pub open spec fn back_step(s: Seq<char>, i: int, k: BackCursor) -> BackStep {
    let cat = word_cat(s[i]);
    let previdx = k.idx;
    if cat == WordCat::WC_Extend || cat == WordCat::WC_Format || (cat == WordCat::WC_ZWJ
        && k.state != UWordBoundsState::Zwj) {
        let k1 = if !(k.state is FormatExtend || k.state == UWordBoundsState::Start) {
            BackCursor {
                state: UWordBoundsState::FormatExtend(FormatExtendType::AcceptNone),
                savestate: k.state,
                saveidx: previdx,
                idx: i,
                ..k
            }
        } else {
            BackCursor { idx: i, ..k }
        };
        if k1.state != UWordBoundsState::Start {
            BackStep::Go(k1)
        } else {
            back_rules(s, i, k1, previdx)
        }
    } else if k.state == UWordBoundsState::FormatExtend(FormatExtendType::AcceptNone) {
        back_rules(
            s,
            i,
            BackCursor { state: k.savestate, idx: i, skipped: true, ..k },
            k.saveidx,
        )
    } else {
        back_rules(s, i, BackCursor { idx: i, ..k }, previdx)
    }
}

/// The segment start when the scan runs out of characters.
pub open spec fn back_finish(k: BackCursor) -> int {
    if back_rewinds(k.state) {
        k.saveidx
    } else {
        k.idx
    }
}

/// The start of the last segment, scanning from character `i` down.
pub open spec fn back_scan(s: Seq<char>, i: int, k: BackCursor) -> int
    decreases i + 1,
{
    if i < 0 {
        back_finish(k)
    } else {
        match back_step(s, i, k) {
            BackStep::Go(k2) => back_scan(s, i - 1, k2),
            BackStep::Stop(n) => n,
        }
    }
}

/// The index at which the last word-bound segment of `s` starts.
pub open spec fn back_start(s: Seq<char>) -> int {
    back_scan(s, s.len() - 1, back_start_cursor(s))
}

/// What a backward scan keeps true of its cursor before reading character `i`.
pub open spec fn back_inv(s: Seq<char>, i: int, k: BackCursor) -> bool {
    &&& -1 <= i < s.len()
    &&& i == s.len() - 1 ==> k == back_start_cursor(s)
    &&& i < s.len() - 1 ==> k.idx == i + 1 && k.state != UWordBoundsState::Start
    &&& 0 <= k.saveidx < s.len()
    &&& k.state == UWordBoundsState::FormatExtend(FormatExtendType::AcceptNone) ==> !(
    k.savestate is FormatExtend) && k.savestate != UWordBoundsState::Start
}

pub proof fn lemma_back_step_inv(s: Seq<char>, i: int, k: BackCursor)
    requires
        back_inv(s, i, k),
        0 <= i,
    ensures
        back_step(s, i, k) matches BackStep::Go(k2) ==> back_inv(s, i - 1, k2),
        back_step(s, i, k) matches BackStep::Stop(n) ==> 0 <= n < s.len(),
{
}

pub proof fn lemma_back_scan_bounds(s: Seq<char>, i: int, k: BackCursor)
    requires
        back_inv(s, i, k),
        s.len() > 0,
    ensures
        0 <= back_scan(s, i, k) < s.len(),
    decreases i + 1,
{
    if i >= 0 {
        lemma_back_step_inv(s, i, k);
        if let BackStep::Go(k2) = back_step(s, i, k) {
            lemma_back_scan_bounds(s, i - 1, k2);
        }
    }
}

/// A non-empty sequence has a last segment of at least one character.
pub proof fn lemma_back_start_bounds(s: Seq<char>)
    requires
        s.len() > 0,
    ensures
        0 <= back_start(s) < s.len(),
{
    lemma_back_scan_bounds(s, s.len() - 1, back_start_cursor(s));
}

} // verus!
