//! Word boundaries: the segment iterators over a string, the word filters
//! on top of them, and the ASCII fast path.
use vstd::prelude::*;
use crate::tables::{
    WordCat, EmojiCat, word_category, emoji_category, word_cat, is_extended_pictographic,
    is_alphanumeric, alnum_of,
};
use crate::ascii_rules::{
    is_digit_byte, is_alpha_byte, is_alnum_byte, is_core_byte, is_infix_byte, space_run, core_run,
    ascii_fwd_len, space_start, core_start, ascii_back_start, ascii_bytes, lemma_space_run_bounds,
    lemma_ascii_fwd_len_bounds, lemma_ascii_back_start_bounds,
};
use vstd::string::StrSliceExecFns;
use vstd::utf8::{is_ascii_chars, is_ascii_chars_encode_utf8, encode_utf8};
use crate::text::{utf8_len, str_chars, str_utf8_len, chars_utf8_len, split_after_chars, lemma_utf8_len_split};
use crate::word_rules::{
    UWordBoundsState, FormatExtendType, RegionalState, FwdCursor, FwdStep, fwd_rules, BackCursor, BackStep,
    fwd_start, fwd_scan, fwd_inv, fwd_len, lemma_fwd_step_inv, lemma_fwd_len_bounds,
    is_require_state, is_format_extend, back_start_cursor, back_step, back_scan, back_inv,
    back_start, back_rewinds, back_rules, lemma_back_step_inv, lemma_back_start_bounds, ri_count,
};

verus! {

/// External iterator for a string's
/// [word boundaries](http://www.unicode.org/reports/tr29/#Word_Boundaries).
#[derive(Debug, Clone)]
pub struct UWordBounds<'a> {
    string: &'a str,
    chars: Vec<char>,
    front: usize,
    back: usize,
    cat: Option<WordCat>,
    catb: Option<WordCat>,
}

impl<'a> View for UWordBounds<'a> {
    type V = Seq<char>;

    /// The part of the string yet to be iterated.
    closed spec fn view(&self) -> Seq<char> {
        self.string@
    }
}

/// The exec form of a forward scan's cursor.
#[derive(Clone, Copy)]
struct FwdScanState {
    state: UWordBoundsState,
    cat: WordCat,
    saveidx: usize,
    savecat: WordCat,
    skipped: bool,
}

impl View for FwdScanState {
    type V = FwdCursor;

    closed spec fn view(&self) -> FwdCursor {
        FwdCursor {
            state: self.state,
            cat: self.cat,
            saveidx: self.saveidx as int,
            savecat: self.savecat,
            skipped: self.skipped,
        }
    }
}

/// What one forward step does: read on, with the category of the next
/// character when the step has already looked it up, or stop with the
/// segment's length and the category of the character after it when known.
enum FwdOutcome {
    Go(FwdScanState, Option<WordCat>),
    Stop(usize, Option<WordCat>),
}

impl FwdOutcome {
    spec fn matches_fwd(self, s: Seq<char>, i: int, step: FwdStep) -> bool {
        match (self, step) {
            (FwdOutcome::Go(k2, p), FwdStep::Go(c2)) => k2@ == c2 && (p matches Some(pc) ==> i
                + 1 < s.len() && pc == word_cat(s[i + 1])),
            (FwdOutcome::Stop(len, c), FwdStep::Stop(m)) => len == m && (c matches Some(x) ==> len
                < s.len() && x == word_cat(s[len as int])),
            _ => false,
        }
    }
}

fn go(k: FwdScanState, state: UWordBoundsState) -> (o: FwdOutcome)
    ensures
        o == FwdOutcome::Go(FwdScanState { state: state, ..k }, None),
{
    FwdOutcome::Go(FwdScanState { state: state, ..k }, None)
}

/// The exec form of a backward scan's cursor.
#[derive(Clone, Copy)]
struct BackScanState {
    state: UWordBoundsState,
    savestate: UWordBoundsState,
    saveidx: usize,
    idx: usize,
    skipped: bool,
}

impl View for BackScanState {
    type V = BackCursor;

    closed spec fn view(&self) -> BackCursor {
        BackCursor {
            state: self.state,
            savestate: self.savestate,
            saveidx: self.saveidx as int,
            idx: self.idx as int,
            skipped: self.skipped,
        }
    }
}

/// What one backward step does: read on, or stop with the segment's start
/// and the category of the character before it when known.
enum BackOutcome {
    Go(BackScanState),
    Stop(usize, Option<WordCat>),
}

impl BackOutcome {
    spec fn matches_back(self, s: Seq<char>, step: BackStep) -> bool {
        match (self, step) {
            (BackOutcome::Go(k2), BackStep::Go(c2)) => k2@ == c2,
            (BackOutcome::Stop(st, c), BackStep::Stop(m)) => st == m && (c matches Some(x) ==> st
                >= 1 && x == word_cat(s[st - 1])),
            _ => false,
        }
    }
}

fn back_go(k: BackScanState, state: UWordBoundsState) -> (o: BackOutcome)
    ensures
        o == BackOutcome::Go(BackScanState { state: state, ..k }),
{
    BackOutcome::Go(BackScanState { state: state, ..k })
}

fn back_go_save(k: BackScanState, state: UWordBoundsState, save: usize) -> (o: BackOutcome)
    ensures
        o == BackOutcome::Go(BackScanState { state: state, saveidx: save, ..k }),
{
    BackOutcome::Go(BackScanState { state: state, saveidx: save, ..k })
}

fn is_format_extend_state(st: UWordBoundsState) -> (r: bool)
    ensures
        r == (st is FormatExtend),
{
    match st {
        UWordBoundsState::FormatExtend(_) => true,
        _ => false,
    }
}

fn rewinds(st: UWordBoundsState) -> (r: bool)
    ensures
        r == back_rewinds(st),
{
    match st {
        UWordBoundsState::FormatExtend(FormatExtendType::RequireLetter)
        | UWordBoundsState::FormatExtend(FormatExtendType::RequireHLetter)
        | UWordBoundsState::FormatExtend(FormatExtendType::RequireNumeric)
        | UWordBoundsState::FormatExtend(FormatExtendType::AcceptNone)
        | UWordBoundsState::FormatExtend(FormatExtendType::AcceptQLetter) => true,
        _ => false,
    }
}

fn is_emoji(ch: char) -> (r: bool)
    ensures
        r == is_extended_pictographic(ch),
{
    emoji_category(ch).2 == EmojiCat::EC_Extended_Pictographic
}

fn is_format_extend_cat(c: WordCat) -> (r: bool)
    ensures
        r == is_format_extend(c),
{
    c == WordCat::WC_Extend || c == WordCat::WC_Format || c == WordCat::WC_ZWJ
}

impl<'a> UWordBounds<'a> {
    /// The iterator's fields agree: `string` is `chars[front..back]`, and a
    /// cached category is the category of the character at that end.
    pub closed spec fn wf(&self) -> bool {
        &&& self.front <= self.back <= self.chars@.len()
        &&& self.string@ == self.chars@.subrange(self.front as int, self.back as int)
        &&& utf8_len(self.string@) <= usize::MAX
        &&& self.front < self.back ==> (self.cat matches Some(c) ==> c == word_cat(
            self.chars@[self.front as int],
        ))
        &&& self.front < self.back ==> (self.catb matches Some(c) ==> c == word_cat(
            self.chars@[self.back - 1],
        ))
    }

    /// View the underlying data (the part yet to be iterated) as a slice of
    /// the string it was made from.
    pub fn as_str(&self) -> (r: &'a str)
        ensures
            r@ == self@,
    {
        self.string
    }

    /// The category of the character after the `idx`-th one of the rest of
    /// the string, if there is one.
    fn get_next_cat(&self, idx: usize) -> (r: Option<WordCat>)
        requires
            self.wf(),
            idx < self@.len(),
        ensures
            r == (if idx + 1 < self@.len() {
                Some(word_cat(self@[idx + 1]))
            } else {
                None
            }),
    {
        let nidx = idx + 1;
        if nidx < self.back - self.front {
            let nch = self.chars[self.front + nidx];
            Some(word_category(nch).2)
        } else {
            None
        }
    }

    /// The category of the character before the `idx`-th one of the rest of
    /// the string, if there is one.
    fn get_prev_cat(&self, idx: usize) -> (r: Option<WordCat>)
        requires
            self.wf(),
            idx <= self@.len(),
        ensures
            r == (if idx > 0 {
                Some(word_cat(self@[idx - 1]))
            } else {
                None
            }),
    {
        if idx > 0 {
            let nch = self.chars[self.front + idx - 1];
            Some(word_category(nch).2)
        } else {
            None
        }
    }

    /// Bounds on the number of segments left: at least one if any text is
    /// left, and at most one per byte.
    pub fn size_hint(&self) -> (r: (usize, Option<usize>))
        requires
            self.wf(),
        ensures
            r.0 == (if self@.len() == 0 {
                0usize
            } else {
                1usize
            }),
            r.1 == Some(utf8_len(self@) as usize),
    {
        let slen = str_utf8_len(self.string);
        proof {
            if self@.len() > 0 {
                lemma_utf8_len_split(self@, 1);
                assert(self@.take(1).len() == 1);
                assert(utf8_len(self@.take(1)) > 0) by {
                    crate::text::lemma_utf8_len_push(Seq::<char>::empty(), self@[0]);
                    assert(Seq::<char>::empty().push(self@[0]) =~= self@.take(1));
                    assert(crate::text::utf8_len(Seq::<char>::empty()) == 0) by {
                        assert(vstd::utf8::encode_utf8(Seq::<char>::empty()) =~= Seq::<u8>::empty());
                    }
                }
            } else {
                assert(vstd::utf8::encode_utf8(self@) =~= Seq::<u8>::empty());
            }
        }
        let lower = if slen == 0 {
            0
        } else {
            1
        };
        (lower, Some(slen))
    }

    /// The rules of the forward scan for the `i`-th character of the rest,
    /// once WB4 and WB3c have not claimed it; `k.cat` is its category.
    fn fwd_rules_exec(&self, i: usize, k: FwdScanState) -> (r: FwdOutcome)
        requires
            self.wf(),
            i < self@.len(),
            k.cat == word_cat(self@[i as int]),
            is_require_state(k.state) ==> k.saveidx < self@.len() && k.savecat == word_cat(
                self@[k.saveidx as int],
            ),
        ensures
            r.matches_fwd(self@, i as int, fwd_rules(self@, i as int, k@)),
    {
        let cat = k.cat;
        let stop_here = FwdOutcome::Stop(i, Some(cat));
        match k.state {
            UWordBoundsState::Start => {
                if cat == WordCat::WC_CR {
                    match self.get_next_cat(i) {
                        Some(WordCat::WC_LF) => FwdOutcome::Stop(i + 2, None),  // rule WB3
                        _ => FwdOutcome::Stop(i + 1, None),  // rule WB3a
                    }
                } else if cat == WordCat::WC_ALetter {
                    go(k, UWordBoundsState::Letter)  // rules WB5, WB6, WB9, WB13a
                } else if cat == WordCat::WC_Hebrew_Letter {
                    go(k, UWordBoundsState::HLetter)  // rules WB5, WB6, WB7a, WB7b, WB9, WB13a
                } else if cat == WordCat::WC_Numeric {
                    go(k, UWordBoundsState::Numeric)  // rules WB8, WB10, WB12, WB13a
                } else if cat == WordCat::WC_Katakana {
                    go(k, UWordBoundsState::Katakana)  // rules WB13, WB13a
                } else if cat == WordCat::WC_ExtendNumLet {
                    go(k, UWordBoundsState::ExtendNumLet)  // rules WB13a, WB13b
                } else if cat == WordCat::WC_Regional_Indicator {
                    go(k, UWordBoundsState::Regional(RegionalState::Half))  // rule WB13c
                } else if cat == WordCat::WC_LF || cat == WordCat::WC_Newline {
                    FwdOutcome::Stop(i + 1, None)  // rule WB3a
                } else if cat == WordCat::WC_ZWJ {
                    go(k, UWordBoundsState::Zwj)  // rule WB3c
                } else if cat == WordCat::WC_WSegSpace {
                    go(k, UWordBoundsState::WSegSpace)  // rule WB3d
                } else {
                    match self.get_next_cat(i) {
                        Some(ncat) => {
                            if is_format_extend_cat(ncat) {
                                // rule WB4
                                FwdOutcome::Go(
                                    FwdScanState {
                                        state: UWordBoundsState::FormatExtend(
                                            FormatExtendType::AcceptNone,
                                        ),
                                        ..k
                                    },
                                    Some(ncat),
                                )
                            } else {
                                FwdOutcome::Stop(i + 1, None)  // rule WB999
                            }
                        },
                        None => FwdOutcome::Stop(i + 1, None),
                    }
                }
            },
            UWordBoundsState::WSegSpace => {
                if cat == WordCat::WC_WSegSpace && !k.skipped {
                    go(k, UWordBoundsState::WSegSpace)
                } else {
                    stop_here
                }
            },
            UWordBoundsState::Zwj => stop_here,  // WB3c is handled before the rules
            UWordBoundsState::Letter | UWordBoundsState::HLetter => {
                if cat == WordCat::WC_ALetter {
                    go(k, UWordBoundsState::Letter)  // rule WB5
                } else if cat == WordCat::WC_Hebrew_Letter {
                    go(k, UWordBoundsState::HLetter)  // rule WB5
                } else if cat == WordCat::WC_Numeric {
                    go(k, UWordBoundsState::Numeric)  // rule WB9
                } else if cat == WordCat::WC_ExtendNumLet {
                    go(k, UWordBoundsState::ExtendNumLet)  // rule WB13a
                } else if cat == WordCat::WC_Double_Quote && k.state == UWordBoundsState::HLetter {
                    // rule WB7b
                    FwdOutcome::Go(
                        FwdScanState {
                            state: UWordBoundsState::FormatExtend(FormatExtendType::RequireHLetter),
                            saveidx: i,
                            savecat: cat,
                            ..k
                        },
                        None,
                    )
                } else if cat == WordCat::WC_Single_Quote && k.state == UWordBoundsState::HLetter {
                    go(k, UWordBoundsState::FormatExtend(FormatExtendType::AcceptQLetter))  // rule WB7a
                } else if cat == WordCat::WC_MidLetter || cat == WordCat::WC_MidNumLet || cat
                    == WordCat::WC_Single_Quote {
                    // rule WB6
                    FwdOutcome::Go(
                        FwdScanState {
                            state: UWordBoundsState::FormatExtend(FormatExtendType::RequireLetter),
                            saveidx: i,
                            savecat: cat,
                            ..k
                        },
                        None,
                    )
                } else {
                    stop_here
                }
            },
            UWordBoundsState::Numeric => {
                if cat == WordCat::WC_Numeric {
                    go(k, UWordBoundsState::Numeric)  // rule WB8
                } else if cat == WordCat::WC_ALetter {
                    go(k, UWordBoundsState::Letter)  // rule WB10
                } else if cat == WordCat::WC_Hebrew_Letter {
                    go(k, UWordBoundsState::HLetter)  // rule WB10
                } else if cat == WordCat::WC_ExtendNumLet {
                    go(k, UWordBoundsState::ExtendNumLet)  // rule WB13a
                } else if cat == WordCat::WC_MidNum || cat == WordCat::WC_MidNumLet || cat
                    == WordCat::WC_Single_Quote {
                    // rule WB12
                    FwdOutcome::Go(
                        FwdScanState {
                            state: UWordBoundsState::FormatExtend(FormatExtendType::RequireNumeric),
                            saveidx: i,
                            savecat: cat,
                            ..k
                        },
                        None,
                    )
                } else {
                    stop_here
                }
            },
            UWordBoundsState::Katakana => {
                if cat == WordCat::WC_Katakana {
                    go(k, UWordBoundsState::Katakana)  // rule WB13
                } else if cat == WordCat::WC_ExtendNumLet {
                    go(k, UWordBoundsState::ExtendNumLet)  // rule WB13a
                } else {
                    stop_here
                }
            },
            UWordBoundsState::ExtendNumLet => {
                if cat == WordCat::WC_ExtendNumLet {
                    go(k, UWordBoundsState::ExtendNumLet)  // rule WB13a
                } else if cat == WordCat::WC_ALetter {
                    go(k, UWordBoundsState::Letter)  // rule WB13b
                } else if cat == WordCat::WC_Hebrew_Letter {
                    go(k, UWordBoundsState::HLetter)  // rule WB13b
                } else if cat == WordCat::WC_Numeric {
                    go(k, UWordBoundsState::Numeric)  // rule WB13b
                } else if cat == WordCat::WC_Katakana {
                    go(k, UWordBoundsState::Katakana)  // rule WB13b
                } else {
                    stop_here
                }
            },
            UWordBoundsState::Regional(rs) => {
                if rs == RegionalState::Half && cat == WordCat::WC_Regional_Indicator {
                    go(k, UWordBoundsState::Regional(RegionalState::Full))  // rule WB13c
                } else {
                    // a full flag only composes with Format/Extend/ZWJ after it
                    stop_here
                }
            },
            UWordBoundsState::Emoji => stop_here,  // the emoji sequence is over
            UWordBoundsState::FormatExtend(t) => {
                if t == FormatExtendType::RequireNumeric && cat == WordCat::WC_Numeric {
                    go(k, UWordBoundsState::Numeric)  // rule WB11
                } else if (t == FormatExtendType::RequireLetter || t
                    == FormatExtendType::AcceptQLetter) && cat == WordCat::WC_ALetter {
                    go(k, UWordBoundsState::Letter)  // rule WB7
                } else if (t == FormatExtendType::RequireLetter || t
                    == FormatExtendType::AcceptQLetter) && cat == WordCat::WC_Hebrew_Letter {
                    go(k, UWordBoundsState::HLetter)  // rule WB7a
                } else if t == FormatExtendType::RequireHLetter && cat
                    == WordCat::WC_Hebrew_Letter {
                    go(k, UWordBoundsState::HLetter)  // rule WB7b
                } else if t == FormatExtendType::AcceptNone || t == FormatExtendType::AcceptQLetter {
                    // emit all the Format|Extend characters
                    FwdOutcome::Stop(i, None)
                } else if t == FormatExtendType::AcceptAny {
                    FwdOutcome::Stop(i + 1, None)
                } else {
                    // what the middle character needed is missing: back up
                    FwdOutcome::Stop(k.saveidx, Some(k.savecat))
                }
            },
        }
    }

    /// The next segment from the front: the shortest non-empty prefix that
    /// the word boundary rules end with a boundary.
    pub fn next(&mut self) -> (r: Option<&'a str>)
        requires
            old(self).wf(),
        ensures
            final(self).wf(),
            old(self)@.len() == 0 ==> r is None && final(self)@ == old(self)@,
            old(self)@.len() > 0 ==> (r matches Some(seg) && seg@ == old(self)@.take(
                fwd_len(old(self)@),
            ) && final(self)@ == old(self)@.skip(fwd_len(old(self)@))),
    {
        if self.front == self.back {
            return None;
        }
        let ghost s = self@;
        let n = self.back - self.front;
        let mut pending = self.cat;
        let mut k = FwdScanState {
            state: UWordBoundsState::Start,
            cat: WordCat::WC_Any,
            saveidx: 0,
            savecat: WordCat::WC_Any,
            skipped: false,
        };
        let mut i: usize = 0;
        let mut stopped = false;
        let mut seg_len: usize = 0;
        let mut cache: Option<WordCat> = None;
        assert(k@ == fwd_start());
        while !stopped && i < n
            invariant
                self.wf(),
                s == self@,
                n == self.back - self.front,
                n == s.len(),
                n > 0,
                i <= n,
                !stopped ==> fwd_inv(s, i as int, k@),
                !stopped ==> fwd_scan(s, i as int, k@) == fwd_len(s),
                stopped ==> seg_len == fwd_len(s) && 1 <= seg_len <= n,
                stopped ==> (cache matches Some(c) ==> seg_len < n && c == word_cat(
                    s[seg_len as int],
                )),
                pending matches Some(pc) ==> !stopped && i < n && pc == word_cat(s[i as int]),
            decreases 2 * (n - i) + (if stopped {
                0int
            } else {
                1int
            }),
        {
            proof {
                lemma_fwd_step_inv(s, i as int, k@);
            }
            let ch = self.chars[self.front + i];
            assert(ch == s[i as int]);
            let prev_zwj = k.cat == WordCat::WC_ZWJ;
            let cat = match pending {
                Some(pc) => pc,
                None => word_category(ch).2,
            };
            pending = None;
            if k.state != UWordBoundsState::Start && is_format_extend_cat(cat) {
                // rule WB4: fold Format, Extend and ZWJ into what precedes them
                k = FwdScanState { cat: cat, skipped: true, ..k };
                i = i + 1;
            } else if prev_zwj && is_emoji(ch) {
                // rule WB3c
                k = FwdScanState { state: UWordBoundsState::Emoji, cat: cat, ..k };
                i = i + 1;
            } else {
                match self.fwd_rules_exec(i, FwdScanState { cat: cat, ..k }) {
                    FwdOutcome::Go(k2, p) => {
                        k = k2;
                        pending = p;
                        i = i + 1;
                    },
                    FwdOutcome::Stop(len, c) => {
                        seg_len = len;
                        cache = c;
                        stopped = true;
                    },
                }
            }
        }
        if !stopped {
            // the text ran out; a pending middle character is left out
            match k.state {
                UWordBoundsState::FormatExtend(FormatExtendType::RequireLetter)
                | UWordBoundsState::FormatExtend(FormatExtendType::RequireHLetter)
                | UWordBoundsState::FormatExtend(FormatExtendType::RequireNumeric) => {
                    seg_len = k.saveidx;
                    cache = Some(k.savecat);
                },
                _ => {
                    seg_len = n;
                    cache = None;
                },
            }
        }
        proof {
            lemma_utf8_len_split(s, seg_len as int);
            assert(self.chars@.subrange(self.front as int, (self.front + seg_len) as int)
                =~= s.take(seg_len as int));
        }
        let nbytes = chars_utf8_len(&self.chars, self.front, self.front + seg_len);
        let (seg, rest) = split_after_chars(self.string, Ghost(seg_len as int), nbytes);
        self.string = rest;
        self.front = self.front + seg_len;
        self.cat = cache;
        proof {
            assert(self.string@ =~= self.chars@.subrange(self.front as int, self.back as int));
        }
        Some(seg)
    }

    /// The number of regional indicators that end the first `end` characters
    /// of the rest, not counting Format, Extend and ZWJ characters.
    fn ri_count_before(&self, end: usize) -> (r: usize)
        requires
            self.wf(),
            end <= self@.len(),
        ensures
            r == ri_count(self@, end as int),
    {
        let ghost s = self@;
        let mut count: usize = 0;
        let mut e = end;
        let mut done = false;
        while !done && e > 0
            invariant
                self.wf(),
                s == self@,
                end <= s.len(),
                e <= end,
                count <= end - e,
                count + ri_count(s, e as int) == ri_count(s, end as int),
                done ==> ri_count(s, e as int) == 0,
            decreases 2 * e + (if done {
                0int
            } else {
                1int
            }),
        {
            let c = word_category(self.chars[self.front + e - 1]).2;
            if is_format_extend_cat(c) {
                e = e - 1;
            } else if c == WordCat::WC_Regional_Indicator {
                count = count + 1;
                e = e - 1;
            } else {
                done = true;
            }
        }
        count
    }

    /// The rules of the backward scan for the `i`-th character of the rest,
    /// once WB4 has not claimed it; the segment starts at `previdx` if the
    /// character is left out.
    fn back_rules_exec(&self, i: usize, k: BackScanState, previdx: usize, take_cat: bool) -> (r:
        BackOutcome)
        requires
            self.wf(),
            i < self@.len(),
            previdx < self@.len(),
            k.saveidx < self@.len(),
            take_cat && k.state != UWordBoundsState::Start ==> previdx == i + 1,
        ensures
            r.matches_back(self@, back_rules(self@, i as int, k@, previdx as int)),
    {
        let ch = self.chars[self.front + i];
        let cat = word_category(ch).2;
        let leave = BackOutcome::Stop(
            previdx,
            if take_cat {
                Some(cat)
            } else {
                None
            },
        );
        match k.state {
            UWordBoundsState::Start | UWordBoundsState::FormatExtend(FormatExtendType::AcceptAny) => {
                if is_emoji(ch) {
                    back_go(k, UWordBoundsState::Zwj)
                } else if cat == WordCat::WC_ALetter {
                    back_go(k, UWordBoundsState::Letter)  // rules WB5, WB7, WB10, WB13b
                } else if cat == WordCat::WC_Hebrew_Letter {
                    back_go(k, UWordBoundsState::HLetter)  // rules WB5, WB7, WB7c, WB10, WB13b
                } else if cat == WordCat::WC_Numeric {
                    back_go(k, UWordBoundsState::Numeric)  // rules WB8, WB9, WB11, WB13b
                } else if cat == WordCat::WC_Katakana {
                    back_go(k, UWordBoundsState::Katakana)  // rules WB13, WB13b
                } else if cat == WordCat::WC_ExtendNumLet {
                    back_go(k, UWordBoundsState::ExtendNumLet)  // rule WB13a
                } else if cat == WordCat::WC_Regional_Indicator {
                    back_go(k, UWordBoundsState::Regional(RegionalState::Unknown))  // rule WB13c
                } else if is_format_extend_cat(cat) {
                    back_go(k, UWordBoundsState::FormatExtend(FormatExtendType::AcceptAny))  // rule WB4
                } else if cat == WordCat::WC_Single_Quote {
                    // rule WB7a
                    back_go_save(k, UWordBoundsState::FormatExtend(FormatExtendType::AcceptQLetter), i)
                } else if cat == WordCat::WC_WSegSpace {
                    back_go(k, UWordBoundsState::WSegSpace)
                } else if cat == WordCat::WC_CR || cat == WordCat::WC_LF || cat
                    == WordCat::WC_Newline {
                    if k.state == UWordBoundsState::Start {
                        if cat == WordCat::WC_LF {
                            match self.get_prev_cat(i) {
                                Some(WordCat::WC_CR) => BackOutcome::Stop(i - 1, None),  // rule WB3
                                _ => BackOutcome::Stop(i, None),
                            }
                        } else {
                            BackOutcome::Stop(i, None)  // rule WB3a
                        }
                    } else {
                        leave  // rule WB3a
                    }
                } else {
                    BackOutcome::Stop(i, None)  // rule WB999
                }
            },
            UWordBoundsState::Zwj => {
                if cat == WordCat::WC_ZWJ {
                    back_go(k, UWordBoundsState::FormatExtend(FormatExtendType::AcceptAny))  // rule WB3c
                } else {
                    leave
                }
            },
            UWordBoundsState::WSegSpace => {
                if cat == WordCat::WC_WSegSpace && !k.skipped {
                    back_go(k, UWordBoundsState::WSegSpace)  // rule WB3d
                } else {
                    leave
                }
            },
            UWordBoundsState::Letter | UWordBoundsState::HLetter => {
                if cat == WordCat::WC_ALetter {
                    back_go(k, UWordBoundsState::Letter)  // rule WB5
                } else if cat == WordCat::WC_Hebrew_Letter {
                    back_go(k, UWordBoundsState::HLetter)  // rule WB5
                } else if cat == WordCat::WC_Numeric {
                    back_go(k, UWordBoundsState::Numeric)  // rule WB10
                } else if cat == WordCat::WC_ExtendNumLet {
                    back_go(k, UWordBoundsState::ExtendNumLet)  // rule WB13b
                } else if cat == WordCat::WC_Double_Quote && k.state == UWordBoundsState::HLetter {
                    // rule WB7c
                    back_go_save(
                        k,
                        UWordBoundsState::FormatExtend(FormatExtendType::RequireHLetter),
                        previdx,
                    )
                } else if cat == WordCat::WC_MidLetter || cat == WordCat::WC_MidNumLet || cat
                    == WordCat::WC_Single_Quote {
                    // rule WB7
                    back_go_save(
                        k,
                        UWordBoundsState::FormatExtend(FormatExtendType::RequireLetter),
                        previdx,
                    )
                } else {
                    leave
                }
            },
            UWordBoundsState::Numeric => {
                if cat == WordCat::WC_Numeric {
                    back_go(k, UWordBoundsState::Numeric)  // rule WB8
                } else if cat == WordCat::WC_ALetter {
                    back_go(k, UWordBoundsState::Letter)  // rule WB9
                } else if cat == WordCat::WC_Hebrew_Letter {
                    back_go(k, UWordBoundsState::HLetter)  // rule WB9
                } else if cat == WordCat::WC_ExtendNumLet {
                    back_go(k, UWordBoundsState::ExtendNumLet)  // rule WB13b
                } else if cat == WordCat::WC_MidNum || cat == WordCat::WC_MidNumLet || cat
                    == WordCat::WC_Single_Quote {
                    // rule WB11
                    back_go_save(
                        k,
                        UWordBoundsState::FormatExtend(FormatExtendType::RequireNumeric),
                        previdx,
                    )
                } else {
                    leave
                }
            },
            UWordBoundsState::Katakana => {
                if cat == WordCat::WC_Katakana {
                    back_go(k, UWordBoundsState::Katakana)  // rule WB13
                } else if cat == WordCat::WC_ExtendNumLet {
                    back_go(k, UWordBoundsState::ExtendNumLet)  // rule WB13b
                } else {
                    leave
                }
            },
            UWordBoundsState::ExtendNumLet => {
                if cat == WordCat::WC_ExtendNumLet {
                    back_go(k, UWordBoundsState::ExtendNumLet)  // rule WB13a
                } else if cat == WordCat::WC_ALetter {
                    back_go(k, UWordBoundsState::Letter)  // rule WB13a
                } else if cat == WordCat::WC_Hebrew_Letter {
                    back_go(k, UWordBoundsState::HLetter)  // rule WB13a
                } else if cat == WordCat::WC_Numeric {
                    back_go(k, UWordBoundsState::Numeric)  // rule WB13a
                } else if cat == WordCat::WC_Katakana {
                    back_go(k, UWordBoundsState::Katakana)  // rule WB13a
                } else {
                    leave
                }
            },
            UWordBoundsState::Regional(rs) => {
                if cat == WordCat::WC_Regional_Indicator {
                    // rule WB13c: pair the indicators up from the start of their run
                    let regional_state = if rs == RegionalState::Unknown {
                        let count = self.ri_count_before(previdx);
                        if count % 2 == 0 {
                            RegionalState::Full
                        } else {
                            RegionalState::Half
                        }
                    } else {
                        rs
                    };
                    if regional_state == RegionalState::Full {
                        leave
                    } else {
                        back_go(k, UWordBoundsState::Regional(RegionalState::Full))
                    }
                } else {
                    leave
                }
            },
            UWordBoundsState::Emoji => {
                if is_emoji(ch) {
                    back_go(k, UWordBoundsState::Zwj)  // rule WB3c
                } else {
                    leave
                }
            },
            UWordBoundsState::FormatExtend(t) => {
                if t == FormatExtendType::RequireNumeric && cat == WordCat::WC_Numeric {
                    back_go(k, UWordBoundsState::Numeric)  // rule WB12
                } else if t == FormatExtendType::RequireLetter && cat == WordCat::WC_ALetter {
                    back_go(k, UWordBoundsState::Letter)  // rule WB6
                } else if t == FormatExtendType::RequireLetter && cat == WordCat::WC_Hebrew_Letter {
                    back_go(k, UWordBoundsState::HLetter)  // rule WB6
                } else if t == FormatExtendType::AcceptQLetter && cat == WordCat::WC_Hebrew_Letter {
                    back_go(k, UWordBoundsState::HLetter)  // rule WB7a
                } else if t == FormatExtendType::RequireHLetter && cat == WordCat::WC_Hebrew_Letter {
                    back_go(k, UWordBoundsState::HLetter)  // rule WB7b
                } else if rewinds(k.state) {
                    // what was pending is not completed: back up
                    BackOutcome::Stop(k.saveidx, None)
                } else {
                    BackOutcome::Stop(i, None)
                }
            },
        }
    }

    /// The next segment from the back: the shortest non-empty suffix that the
    /// word boundary rules start with a boundary.
    pub fn next_back(&mut self) -> (r: Option<&'a str>)
        requires
            old(self).wf(),
        ensures
            final(self).wf(),
            old(self)@.len() == 0 ==> r is None && final(self)@ == old(self)@,
            old(self)@.len() > 0 ==> (r matches Some(seg) && seg@ == old(self)@.skip(
                back_start(old(self)@),
            ) && final(self)@ == old(self)@.take(back_start(old(self)@))),
    {
        if self.front == self.back {
            return None;
        }
        let ghost s = self@;
        let n = self.back - self.front;
        let mut pending = self.catb;
        let mut k = BackScanState {
            state: UWordBoundsState::Start,
            savestate: UWordBoundsState::Start,
            saveidx: n - 1,
            idx: n - 1,
            skipped: false,
        };
        let mut j: usize = n;
        let mut stopped = false;
        let mut start: usize = 0;
        let mut cache: Option<WordCat> = None;
        assert(k@ == back_start_cursor(s));
        while !stopped && j > 0
            invariant
                self.wf(),
                s == self@,
                n == self.back - self.front,
                n == s.len(),
                n > 0,
                j <= n,
                !stopped ==> back_inv(s, j - 1, k@),
                !stopped ==> back_scan(s, j - 1, k@) == back_start(s),
                stopped ==> start == back_start(s) && start < n,
                stopped ==> (cache matches Some(c) ==> start >= 1 && c == word_cat(
                    s[start - 1],
                )),
                pending matches Some(pc) ==> !stopped && j == n && pc == word_cat(s[n - 1]),
            decreases 2 * j + (if stopped {
                0int
            } else {
                1int
            }),
        {
            let i = j - 1;
            proof {
                lemma_back_step_inv(s, i as int, k@);
            }
            let ch = self.chars[self.front + i];
            assert(ch == s[i as int]);
            let cat = match pending {
                Some(pc) => pc,
                None => word_category(ch).2,
            };
            pending = None;
            let previdx = k.idx;
            let mut outcome = BackOutcome::Go(k);
            if cat == WordCat::WC_Extend || cat == WordCat::WC_Format || (cat == WordCat::WC_ZWJ
                && k.state != UWordBoundsState::Zwj) {
                // rule WB4: fold Format and Extend into the character to their left
                let k1 = if !(is_format_extend_state(k.state) || k.state
                    == UWordBoundsState::Start) {
                    BackScanState {
                        state: UWordBoundsState::FormatExtend(FormatExtendType::AcceptNone),
                        savestate: k.state,
                        saveidx: previdx,
                        idx: i,
                        ..k
                    }
                } else {
                    BackScanState { idx: i, ..k }
                };
                if k1.state != UWordBoundsState::Start {
                    outcome = BackOutcome::Go(k1);
                } else {
                    outcome = self.back_rules_exec(i, k1, previdx, true);
                }
            } else if k.state == UWordBoundsState::FormatExtend(FormatExtendType::AcceptNone) {
                // a run of Format/Extend characters is over: resume the state before it
                outcome =
                self.back_rules_exec(
                    i,
                    BackScanState { state: k.savestate, idx: i, skipped: true, ..k },
                    k.saveidx,
                    false,
                );
            } else {
                outcome = self.back_rules_exec(i, BackScanState { idx: i, ..k }, previdx, true);
            }
            assert(outcome.matches_back(s, back_step(s, i as int, k@)));
            match outcome {
                BackOutcome::Go(k2) => {
                    k = k2;
                    j = i;
                },
                BackOutcome::Stop(st, c) => {
                    start = st;
                    cache = c;
                    stopped = true;
                },
            }
        }
        if !stopped {
            // the text ran out; what is still pending is given up
            start = if rewinds(k.state) {
                k.saveidx
            } else {
                k.idx
            };
            cache = None;
        }
        proof {
            lemma_utf8_len_split(s, start as int);
            assert(self.chars@.subrange((self.front + start) as int, self.back as int)
                =~= s.skip(start as int));
        }
        let seg_bytes = chars_utf8_len(&self.chars, self.front + start, self.back);
        let total = str_utf8_len(self.string);
        let (rest, seg) = split_after_chars(self.string, Ghost(start as int), total - seg_bytes);
        self.string = rest;
        self.back = self.front + start;
        self.catb = cache;
        proof {
            assert(self.string@ =~= self.chars@.subrange(self.front as int, self.back as int));
        }
        Some(seg)
    }
}

/// Creates the word-bound iterator over `s`.
pub fn new_word_bounds(s: &str) -> (r: UWordBounds<'_>)
    ensures
        r.wf(),
        r@ == s@,
{
    let chars = str_chars(s);
    let n = chars.len();
    // The text's byte length is a usize: every offset into it fits.
    let _byte_len = str_utf8_len(s);
    let r = UWordBounds { string: s, chars: chars, front: 0, back: n, cat: None, catb: None };
    assert(r.chars@.subrange(0, n as int) =~= r.chars@);
    r
}


const SPACE: u8 = 0x20;
const UNDERSCORE: u8 = 0x5F;
const FULL_STOP: u8 = 0x2E;
const COMMA: u8 = 0x2C;
const SEMICOLON: u8 = 0x3B;
const APOSTROPHE: u8 = 0x27;
const COLON: u8 = 0x3A;
const CR: u8 = 0x0D;
const LF: u8 = 0x0A;
const DIGIT_ZERO: u8 = 0x30;
const DIGIT_NINE: u8 = 0x39;
const CAPITAL_A: u8 = 0x41;
const CAPITAL_Z: u8 = 0x5A;
const SMALL_A: u8 = 0x61;
const SMALL_Z: u8 = 0x7A;

/// Whether `c` is an ASCII letter or digit.
pub open spec fn is_ascii_alnum_char(c: char) -> bool {
    ('0' <= c <= '9') || ('A' <= c <= 'Z') || ('a' <= c <= 'z')
}

/// Whether some character of `s` is an ASCII letter or digit.
pub open spec fn has_ascii_alnum(s: Seq<char>) -> bool {
    exists|i: int| 0 <= i < s.len() && is_ascii_alnum_char(#[trigger] s[i])
}

/// Whether some character of `s` is alphanumeric.
pub open spec fn has_alnum(s: Seq<char>) -> bool {
    exists|i: int| 0 <= i < s.len() && alnum_of(#[trigger] s[i])
}

fn is_ascii_digit(b: u8) -> (r: bool)
    ensures
        r == is_digit_byte(b),
{
    DIGIT_ZERO <= b && b <= DIGIT_NINE
}

fn is_ascii_alphabetic(b: u8) -> (r: bool)
    ensures
        r == is_alpha_byte(b),
{
    (CAPITAL_A <= b && b <= CAPITAL_Z) || (SMALL_A <= b && b <= SMALL_Z)
}

fn is_ascii_alphanumeric(b: u8) -> (r: bool)
    ensures
        r == is_alnum_byte(b),
{
    is_ascii_digit(b) || is_ascii_alphabetic(b)
}

fn char_is_ascii_alphanumeric(c: char) -> (r: bool)
    ensures
        r == is_ascii_alnum_char(c),
{
    ('0' <= c && c <= '9') || ('A' <= c && c <= 'Z') || ('a' <= c && c <= 'z')
}

/// Whether some character of `s` is alphanumeric.
pub fn has_alphanumeric(s: &str) -> (r: bool)
    ensures
        r == has_alnum(s@),
        forall|i: int| 0 <= i < s@.len() && alnum_of(#[trigger] s@[i]) ==> r,
        r ==> exists|i: int| 0 <= i < s@.len() && alnum_of(#[trigger] s@[i]),
{
    let chars = str_chars(s);
    let mut i: usize = 0;
    while i < chars.len()
        invariant
            chars@ == s@,
            i <= chars.len(),
            forall|j: int| 0 <= j < i ==> !alnum_of(#[trigger] s@[j]),
        decreases chars.len() - i,
    {
        if is_alphanumeric(chars[i]) {
            assert(alnum_of(s@[i as int]));
            return true;
        }
        i = i + 1;
    }
    false
}

/// Whether some character of `s` is an ASCII letter or digit.
pub fn has_ascii_alphanumeric(s: &str) -> (r: bool)
    ensures
        r == has_ascii_alnum(s@),
        forall|i: int| 0 <= i < s@.len() && is_ascii_alnum_char(#[trigger] s@[i]) ==> r,
        r ==> exists|i: int| 0 <= i < s@.len() && is_ascii_alnum_char(#[trigger] s@[i]),
{
    let chars = str_chars(s);
    let mut i: usize = 0;
    while i < chars.len()
        invariant
            chars@ == s@,
            i <= chars.len(),
            forall|j: int| 0 <= j < i ==> !is_ascii_alnum_char(#[trigger] s@[j]),
        decreases chars.len() - i,
    {
        if char_is_ascii_alphanumeric(chars[i]) {
            assert(is_ascii_alnum_char(s@[i as int]));
            return true;
        }
        i = i + 1;
    }
    false
}

/// ASCII fast-path word-boundary iterator for strings that contain only
/// ASCII characters.
///
/// Since it handles only ASCII characters, it uses a much simpler set of
/// word break values than the full Unicode algorithm:
///
/// | Word_Break value | ASCII code points that belong to it              |
/// | ---------------- | ------------------------------------------------ |
/// | CR               | U+000D (CR)                                      |
/// | LF               | U+000A (LF)                                      |
/// | Newline          | U+000B (VT), U+000C (FF)                         |
/// | Single_Quote     | U+0027 (')                                       |
/// | Double_Quote     | U+0022 (")                                       |
/// | MidNumLet        | U+002E (.) FULL STOP                             |
/// | MidLetter        | U+003A (:) COLON                                 |
/// | MidNum           | U+002C (,), U+003B (;)                           |
/// | Numeric          | U+0030 – U+0039 (0 … 9)                          |
/// | ALetter          | U+0041 – U+005A (A … Z), U+0061 – U+007A (a … z) |
/// | ExtendNumLet     | U+005F (_) underscore                            |
/// | WSegSpace        | U+0020 (SPACE)                                   |
///
/// Any other single ASCII byte is its own boundary (the default WB999).
#[derive(Debug)]
pub struct AsciiWordBoundIter<'a> {
    rest: &'a str,
    offset: usize,
}

impl<'a> View for AsciiWordBoundIter<'a> {
    type V = (Seq<char>, int);

    /// The text yet to be iterated, and its byte offset in the whole text.
    closed spec fn view(&self) -> (Seq<char>, int) {
        (self.rest@, self.offset as int)
    }
}

impl<'a> AsciiWordBoundIter<'a> {
    pub closed spec fn wf(&self) -> bool {
        &&& is_ascii_chars(self.rest@)
        &&& self.offset + self.rest@.len() <= usize::MAX
    }

    /// Creates the iterator over the ASCII text `s`.
    pub fn new(s: &'a str) -> (r: Self)
        requires
            is_ascii_chars(s@),
        ensures
            r.wf(),
            r@ == (s@, 0int),
    {
        proof {
            is_ascii_chars_encode_utf8(s@);
        }
        // The text's byte length is a usize: every offset into it fits.
        let _byte_len = str_utf8_len(s);
        AsciiWordBoundIter { rest: s, offset: 0 }
    }

    /// Letters, digits and the underscore.
    fn is_core(b: u8) -> (r: bool)
        ensures
            r == is_core_byte(b),
    {
        is_ascii_alphanumeric(b) || b == UNDERSCORE
    }

    /// Whether `b` between `prev` and `next` joins them.
    fn is_infix(b: u8, prev: u8, next: u8) -> (r: bool)
        ensures
            r == is_infix_byte(b, prev, next),
    {
        // Numeric separators such as "1,000" or "3.14" (WB11/WB12):
        // Numeric (MidNum | MidNumLetQ) Numeric
        if (b == FULL_STOP || b == COMMA || b == SEMICOLON || b == APOSTROPHE) && is_ascii_digit(prev)
            && is_ascii_digit(next) {
            return true;
        }
        // Dot or colon inside an alphabetic word ("e.g.", "http://") (WB6/WB7):
        // (MidLetter | MidNumLetQ) AHLetter (MidLetter | MidNumLetQ)
        (b == APOSTROPHE || b == FULL_STOP || b == COLON) && is_ascii_alphabetic(prev) && is_ascii_alphabetic(
            next,
        )
    }

    /// The next segment from the front, with its byte offset.
    pub fn next(&mut self) -> (r: Option<(usize, &'a str)>)
        requires
            old(self).wf(),
        ensures
            final(self).wf(),
            old(self)@.0.len() == 0 ==> r is None && final(self)@ == old(self)@,
            old(self)@.0.len() > 0 ==> ({
                let len = ascii_fwd_len(ascii_bytes(old(self)@.0));
                r matches Some((pos, w)) && pos == old(self)@.1 && w@ == old(self)@.0.take(len)
                    && final(self)@ == (old(self)@.0.skip(len), old(self)@.1 + len)
            }),
    {
        if self.rest.is_empty() {
            return None;
        }
        let bytes = self.rest.as_bytes();
        let len = bytes.len();
        let ghost b = ascii_bytes(self.rest@);
        proof {
            is_ascii_chars_encode_utf8(self.rest@);
            assert(bytes@ =~= b);
        }
        let n: usize = if bytes[0] == SPACE {
            // 1) Keep horizontal whitespace together (WB3d).
            let mut i: usize = 1;
            proof {
                lemma_space_run_bounds(b, 1);
            }
            while i < len && bytes[i] == SPACE
                invariant
                    1 <= i <= len,
                    len == b.len(),
                    bytes@ == b,
                    space_run(b, i as int) == space_run(b, 1),
                decreases len - i,
            {
                i = i + 1;
            }
            i
        } else if Self::is_core(bytes[0]) {
            // 2) Core run: letters, digits, underscores and infixes (WB5-WB13b).
            let mut i: usize = 1;
            while i < len && (Self::is_core(bytes[i]) || (i + 1 < len && Self::is_infix(
                bytes[i],
                bytes[i - 1],
                bytes[i + 1],
            )))
                invariant
                    1 <= i <= len,
                    len == b.len(),
                    bytes@ == b,
                    core_run(b, i as int) == core_run(b, 1),
                decreases len - i,
            {
                i = i + 1;
            }
            i
        } else if bytes[0] == CR && len >= 2 && bytes[1] == LF {
            // 3) Do not break within CRLF (WB3).
            2
        } else {
            // 4) Otherwise, break everywhere (WB999).
            1
        };
        let word = self.rest.substring_ascii(0, n);
        let pos = self.offset;
        self.rest = self.rest.substring_ascii(n, len);
        self.offset = self.offset + n;
        proof {
            assert(self.rest@ =~= old(self)@.0.skip(n as int));
        }
        Some((pos, word))
    }

    /// The next segment from the back, with its byte offset.
    pub fn next_back(&mut self) -> (r: Option<(usize, &'a str)>)
        requires
            old(self).wf(),
        ensures
            final(self).wf(),
            old(self)@.0.len() == 0 ==> r is None && final(self)@ == old(self)@,
            old(self)@.0.len() > 0 ==> ({
                let start = ascii_back_start(ascii_bytes(old(self)@.0));
                r matches Some((pos, w)) && pos == old(self)@.1 + start && w@ == old(self)@.0.skip(
                    start,
                ) && final(self)@ == (old(self)@.0.take(start), old(self)@.1)
            }),
    {
        let rest = self.rest;
        if rest.is_empty() {
            return None;
        }
        let bytes = rest.as_bytes();
        let len = bytes.len();
        let ghost b = ascii_bytes(rest@);
        proof {
            is_ascii_chars_encode_utf8(rest@);
            assert(bytes@ =~= b);
        }
        let start: usize = if bytes[len - 1] == SPACE {
            // 1) Group runs of spaces (WB3d).
            let mut start = len - 1;
            while start > 0 && bytes[start - 1] == SPACE
                invariant
                    0 <= start <= len - 1,
                    len == b.len(),
                    bytes@ == b,
                    space_start(b, start as int) == space_start(b, len - 1),
                decreases start,
            {
                start = start - 1;
            }
            start
        } else if Self::is_core(bytes[len - 1]) {
            // 2) Trailing core run: letters, digits, underscores and infixes
            // (WB5-WB13b), scanned backward.
            let mut start = len - 1;
            let mut done = false;
            while !done && start > 0
                invariant
                    0 <= start <= len - 1,
                    len == b.len(),
                    bytes@ == b,
                    !done ==> core_start(b, start as int) == core_start(b, len - 1),
                    done ==> start == core_start(b, len - 1),
                decreases 2 * start + (if done {
                    0int
                } else {
                    1int
                }),
            {
                let c = bytes[start - 1];
                let prev = if start >= 2 {
                    bytes[start - 2]
                } else {
                    c
                };
                let next = bytes[start];  // the byte just included
                if Self::is_core(c) || Self::is_infix(c, prev, next) {
                    start = start - 1;
                } else {
                    done = true;
                }
            }
            start
        } else if len >= 2 && bytes[len - 2] == CR && bytes[len - 1] == LF {
            // 3) CR LF as one segment (WB3).
            len - 2
        } else {
            // 4) Every other byte is its own segment (WB999).
            len - 1
        };
        let word = rest.substring_ascii(start, len);
        let pos = self.offset + start;
        self.rest = rest.substring_ascii(0, start);
        proof {
            assert(self.rest@ =~= old(self)@.0.take(start as int));
        }
        Some((pos, word))
    }
}

/// Creates the ASCII fast-path iterator over `s`.
pub fn new_ascii_word_bound_indices(s: &str) -> (r: AsciiWordBoundIter<'_>)
    requires
        is_ascii_chars(s@),
    ensures
        r.wf(),
        r@ == (s@, 0int),
{
    AsciiWordBoundIter::new(s)
}

/// External iterator for word boundaries and byte offsets.
#[derive(Debug, Clone)]
pub struct UWordBoundIndices<'a> {
    start_offset: usize,
    iter: UWordBounds<'a>,
}

impl<'a> View for UWordBoundIndices<'a> {
    type V = (Seq<char>, int);

    /// The text yet to be iterated, and its byte offset in the whole text.
    closed spec fn view(&self) -> (Seq<char>, int) {
        (self.iter@, self.start_offset as int)
    }
}

impl<'a> UWordBoundIndices<'a> {
    pub closed spec fn wf(&self) -> bool {
        &&& self.iter.wf()
        &&& self.start_offset + utf8_len(self.iter@) <= usize::MAX
    }

    /// View the underlying data (the part yet to be iterated) as a slice of
    /// the string it was made from.
    pub fn as_str(&self) -> (r: &'a str)
        ensures
            r@ == self@.0,
    {
        self.iter.as_str()
    }

    /// The next segment from the front, with its byte offset.
    pub fn next(&mut self) -> (r: Option<(usize, &'a str)>)
        requires
            old(self).wf(),
        ensures
            final(self).wf(),
            old(self)@.0.len() == 0 ==> r is None && final(self)@ == old(self)@,
            old(self)@.0.len() > 0 ==> ({
                let len = fwd_len(old(self)@.0);
                r matches Some((pos, w)) && pos == old(self)@.1 && w@ == old(self)@.0.take(len)
                    && final(self)@ == (old(self)@.0.skip(len), old(self)@.1 + utf8_len(w@))
            }),
    {
        let ghost s = self.iter@;
        match self.iter.next() {
            Some(w) => {
                proof {
                    lemma_fwd_len_bounds(s);
                    lemma_utf8_len_split(s, fwd_len(s));
                }
                let pos = self.start_offset;
                self.start_offset = pos + str_utf8_len(w);
                Some((pos, w))
            },
            None => None,
        }
    }

    /// The next segment from the back, with its byte offset.
    pub fn next_back(&mut self) -> (r: Option<(usize, &'a str)>)
        requires
            old(self).wf(),
        ensures
            final(self).wf(),
            old(self)@.0.len() == 0 ==> r is None && final(self)@ == old(self)@,
            old(self)@.0.len() > 0 ==> ({
                let start = back_start(old(self)@.0);
                r matches Some((pos, w)) && pos == old(self)@.1 + utf8_len(old(self)@.0.take(start))
                    && w@ == old(self)@.0.skip(start) && final(self)@ == (
                    old(self)@.0.take(start),
                    old(self)@.1,
                )
            }),
    {
        let ghost s = self.iter@;
        match self.iter.next_back() {
            Some(w) => {
                proof {
                    lemma_back_start_bounds(s);
                    lemma_utf8_len_split(s, back_start(s));
                }
                let pos = self.start_offset + str_utf8_len(self.iter.as_str());
                Some((pos, w))
            },
            None => None,
        }
    }

    /// Bounds on the number of segments left.
    pub fn size_hint(&self) -> (r: (usize, Option<usize>))
        requires
            self.wf(),
        ensures
            r.0 == (if self@.0.len() == 0 {
                0usize
            } else {
                1usize
            }),
            r.1 == Some(utf8_len(self@.0) as usize),
    {
        self.iter.size_hint()
    }
}

/// Creates the iterator over the word bounds of `s` and their byte offsets.
pub fn new_word_bound_indices(s: &str) -> (r: UWordBoundIndices<'_>)
    ensures
        r.wf(),
        r@ == (s@, 0int),
{
    UWordBoundIndices { start_offset: 0, iter: new_word_bounds(s) }
}

// ---------------------------------------------------------------------------
// Words: the segments that hold a letter or a digit
/// The length of the first segment of `s`, by the fast path where `ascii`.
pub open spec fn bound_len(ascii: bool, s: Seq<char>) -> int {
    if ascii {
        ascii_fwd_len(ascii_bytes(s))
    } else {
        fwd_len(s)
    }
}

/// The start of the last segment of `s`, by the fast path where `ascii`.
pub open spec fn bound_start(ascii: bool, s: Seq<char>) -> int {
    if ascii {
        ascii_back_start(ascii_bytes(s))
    } else {
        back_start(s)
    }
}

/// Whether a segment counts as a word: it holds an (ASCII, where `ascii`)
/// letter or digit.
pub open spec fn is_word(ascii: bool, w: Seq<char>) -> bool {
    if ascii {
        has_ascii_alnum(w)
    } else {
        has_alnum(w)
    }
}

/// Where the first word of `s` starts and ends.
pub open spec fn first_word(ascii: bool, s: Seq<char>) -> Option<(int, int)>
    decreases s.len(),
{
    let l = bound_len(ascii, s);
    if s.len() == 0 || l < 1 || l > s.len() {
        None
    } else if is_word(ascii, s.take(l)) {
        Some((0, l))
    } else {
        match first_word(ascii, s.skip(l)) {
            Some((a, b)) => Some((a + l, b + l)),
            None => None,
        }
    }
}

/// Where the last word of `s` starts and ends.
pub open spec fn last_word(ascii: bool, s: Seq<char>) -> Option<(int, int)>
    decreases s.len(),
{
    let st = bound_start(ascii, s);
    if s.len() == 0 || st < 0 || st >= s.len() {
        None
    } else if is_word(ascii, s.skip(st)) {
        Some((st, s.len() as int))
    } else {
        last_word(ascii, s.take(st))
    }
}

pub open spec fn shift(o: Option<(int, int)>, off: int) -> Option<(int, int)> {
    match o {
        Some((a, b)) => Some((a + off, b + off)),
        None => None,
    }
}

/// Whether the tuple's segment is a word by the ASCII test.
fn ascii_word_ok(t: &(usize, &str)) -> (r: bool)
    ensures
        r == has_ascii_alnum(t.1@),
{
    has_ascii_alphanumeric(t.1)
}

/// Whether the tuple's segment is a word.
fn unicode_word_ok(t: &(usize, &str)) -> (r: bool)
    ensures
        r == has_alnum(t.1@),
{
    has_alphanumeric(t.1)
}

/// The segment of an indexed segment.
fn strip_pos<'a>(t: (usize, &'a str)) -> (r: &'a str)
    ensures
        r == t.1,
{
    t.1
}

#[derive(Debug)]
enum WordsIter<'a> {
    Ascii(AsciiWordBoundIter<'a>),
    Unicode(UWordBounds<'a>),
}

/// An iterator over the substrings of a string which, after splitting the
/// string on [word boundaries](http://www.unicode.org/reports/tr29/#Word_Boundaries),
/// contain any alphanumeric characters.
#[derive(Debug)]
pub struct UnicodeWords<'a> {
    inner: WordsIter<'a>,
}

impl<'a> View for UnicodeWords<'a> {
    type V = Seq<char>;

    /// The text yet to be iterated.
    closed spec fn view(&self) -> Seq<char> {
        match self.inner {
            WordsIter::Ascii(i) => i@.0,
            WordsIter::Unicode(u) => u@,
        }
    }
}

impl<'a> UnicodeWords<'a> {
    pub closed spec fn wf(&self) -> bool {
        match self.inner {
            WordsIter::Ascii(i) => i.wf(),
            WordsIter::Unicode(u) => u.wf(),
        }
    }

    /// Whether the iterator takes the ASCII fast path.
    pub closed spec fn is_ascii_path(&self) -> bool {
        self.inner is Ascii
    }

    /// The next word from the front.
    #[verifier::rlimit(50)]
    pub fn next(&mut self) -> (r: Option<&'a str>)
        requires
            old(self).wf(),
        ensures
            final(self).wf(),
            final(self).is_ascii_path() == old(self).is_ascii_path(),
            match first_word(old(self).is_ascii_path(), old(self)@) {
                Some((a, b)) => r matches Some(w) && w@ == old(self)@.subrange(a, b)
                    && final(self)@ == old(self)@.skip(b),
                None => r is None && final(self)@.len() == 0,
            },
    {
        let ghost ascii = self.is_ascii_path();
        let ghost s0 = self@;
        let ghost mut off: int = 0;
        loop
            invariant
                self.wf(),
                self.is_ascii_path() == ascii,
                ascii == old(self).is_ascii_path(),
                s0 == old(self)@,
                0 <= off <= s0.len(),
                self@ == s0.skip(off),
                first_word(ascii, s0) == shift(first_word(ascii, self@), off),
            decreases self@.len(),
        {
            let ghost cur = self@;
            let seg = match &mut self.inner {
                WordsIter::Ascii(i) => match i.next() {
                    Some(t) => Some(strip_pos(t)),
                    None => None,
                },
                WordsIter::Unicode(u) => u.next(),
            };
            match seg {
                None => {
                    return None;
                },
                Some(w) => {
                    let ok = match &self.inner {
                        WordsIter::Ascii(_) => has_ascii_alphanumeric(w),
                        WordsIter::Unicode(_) => has_alphanumeric(w),
                    };
                    proof {
                        lemma_front_step(ascii, s0, off);
                        off = off + bound_len(ascii, cur);
                    }
                    if ok {
                        return Some(w);
                    }
                },
            }
        }
    }

    /// The next word from the back.
    #[verifier::rlimit(50)]
    pub fn next_back(&mut self) -> (r: Option<&'a str>)
        requires
            old(self).wf(),
        ensures
            final(self).wf(),
            final(self).is_ascii_path() == old(self).is_ascii_path(),
            match last_word(old(self).is_ascii_path(), old(self)@) {
                Some((a, b)) => r matches Some(w) && w@ == old(self)@.subrange(a, b)
                    && final(self)@ == old(self)@.take(a),
                None => r is None && final(self)@.len() == 0,
            },
    {
        let ghost ascii = self.is_ascii_path();
        let ghost s0 = self@;
        loop
            invariant
                self.wf(),
                self.is_ascii_path() == ascii,
                ascii == old(self).is_ascii_path(),
                s0 == old(self)@,
                self@.len() <= s0.len(),
                self@ == s0.take(self@.len() as int),
                last_word(ascii, s0) == last_word(ascii, self@),
            decreases self@.len(),
        {
            let ghost cur = self@;
            let seg = match &mut self.inner {
                WordsIter::Ascii(i) => match i.next_back() {
                    Some(t) => Some(strip_pos(t)),
                    None => None,
                },
                WordsIter::Unicode(u) => u.next_back(),
            };
            match seg {
                None => {
                    return None;
                },
                Some(w) => {
                    let ok = match &self.inner {
                        WordsIter::Ascii(_) => has_ascii_alphanumeric(w),
                        WordsIter::Unicode(_) => has_alphanumeric(w),
                    };
                    proof {
                        lemma_back_step(ascii, s0, cur.len() as int);
                    }
                    if ok {
                        return Some(w);
                    }
                },
            }
        }
    }

    /// Bounds on the number of words left: none known below, and on the
    /// general path at most one per byte.
    pub fn size_hint(&self) -> (r: (usize, Option<usize>))
        requires
            self.wf(),
        ensures
            r.0 == 0,
            self.is_ascii_path() ==> r.1 is None,
            !self.is_ascii_path() ==> r.1 == Some(utf8_len(self@) as usize),
    {
        match &self.inner {
            WordsIter::Ascii(_) => (0, None),
            WordsIter::Unicode(u) => {
                let (_, upper) = u.size_hint();
                (0, upper)
            },
        }
    }
}

#[derive(Debug)]
enum IndicesIter<'a> {
    Ascii(AsciiWordBoundIter<'a>),
    Unicode(UWordBoundIndices<'a>),
}

/// An iterator over the substrings of a string which, after splitting the
/// string on [word boundaries](http://www.unicode.org/reports/tr29/#Word_Boundaries),
/// contain any alphanumeric characters, with their byte offsets.
#[derive(Debug)]
pub struct UnicodeWordIndices<'a> {
    inner: IndicesIter<'a>,
}

impl<'a> View for UnicodeWordIndices<'a> {
    type V = (Seq<char>, int);

    /// The text yet to be iterated, and its byte offset in the whole text.
    closed spec fn view(&self) -> (Seq<char>, int) {
        match self.inner {
            IndicesIter::Ascii(i) => i@,
            IndicesIter::Unicode(u) => u@,
        }
    }
}

/// ASCII text takes one byte per character.
proof fn lemma_ascii_utf8_len(s: Seq<char>)
    requires
        is_ascii_chars(s),
    ensures
        utf8_len(s) == s.len(),
{
    is_ascii_chars_encode_utf8(s);
}

/// One step of a word scan from the front, `off` characters into `s0`.
proof fn lemma_front_step(ascii: bool, s0: Seq<char>, off: int)
    requires
        0 <= off < s0.len(),
        ascii ==> is_ascii_chars(s0.skip(off)),
    ensures
        ({
            let cur = s0.skip(off);
            let l = bound_len(ascii, cur);
            &&& 1 <= l <= cur.len()
            &&& cur.skip(l) == s0.skip(off + l)
            &&& cur.take(l) == s0.subrange(off, off + l)
            &&& utf8_len(s0.take(off + l)) == utf8_len(s0.take(off)) + utf8_len(cur.take(l))
            &&& ascii ==> utf8_len(cur.take(l)) == l
            &&& ascii ==> is_ascii_chars(cur.skip(l))
        }),
{
    let cur = s0.skip(off);
    let l = bound_len(ascii, cur);
    if ascii {
        lemma_ascii_fwd_len_bounds(ascii_bytes(cur));
        lemma_ascii_utf8_len(cur.take(l));
    } else {
        lemma_fwd_len_bounds(cur);
    }
    assert(cur.skip(l) =~= s0.skip(off + l));
    assert(cur.take(l) =~= s0.subrange(off, off + l));
    assert(s0.take(off + l) =~= s0.take(off) + cur.take(l));
    crate::text::lemma_utf8_len_concat(s0.take(off), cur.take(l));
}

/// One step of a word scan from the back, over the first `end` characters
/// of `s0`.
proof fn lemma_back_step(ascii: bool, s0: Seq<char>, end: int)
    requires
        0 < end <= s0.len(),
        ascii ==> is_ascii_chars(s0.take(end)),
    ensures
        ({
            let cur = s0.take(end);
            let st = bound_start(ascii, cur);
            &&& 0 <= st < cur.len()
            &&& cur.take(st) == s0.take(st)
            &&& cur.skip(st) == s0.subrange(st, end)
            &&& ascii ==> utf8_len(cur.take(st)) == st
            &&& ascii ==> is_ascii_chars(cur.take(st))
        }),
{
    let cur = s0.take(end);
    let st = bound_start(ascii, cur);
    if ascii {
        lemma_ascii_back_start_bounds(ascii_bytes(cur));
        assert(is_ascii_chars(cur.take(st)));
        lemma_ascii_utf8_len(cur.take(st));
    } else {
        lemma_back_start_bounds(cur);
    }
    assert(cur.take(st) =~= s0.take(st));
    assert(cur.skip(st) =~= s0.subrange(st, end));
}

impl<'a> UnicodeWordIndices<'a> {
    pub closed spec fn wf(&self) -> bool {
        match self.inner {
            IndicesIter::Ascii(i) => i.wf(),
            IndicesIter::Unicode(u) => u.wf(),
        }
    }

    /// Whether the iterator takes the ASCII fast path.
    pub closed spec fn is_ascii_path(&self) -> bool {
        self.inner is Ascii
    }

    /// The next word from the front, with its byte offset.
    #[verifier::rlimit(50)]
    pub fn next(&mut self) -> (r: Option<(usize, &'a str)>)
        requires
            old(self).wf(),
        ensures
            final(self).wf(),
            final(self).is_ascii_path() == old(self).is_ascii_path(),
            match first_word(old(self).is_ascii_path(), old(self)@.0) {
                Some((a, b)) => r matches Some((pos, w)) && pos == old(self)@.1 + utf8_len(
                    old(self)@.0.take(a),
                ) && w@ == old(self)@.0.subrange(a, b) && final(self)@ == (
                    old(self)@.0.skip(b),
                    old(self)@.1 + utf8_len(old(self)@.0.take(b)),
                ),
                None => r is None && final(self)@.0.len() == 0,
            },
    {
        let ghost ascii = self.is_ascii_path();
        let ghost s0 = self@.0;
        let ghost o0 = self@.1;
        let ghost mut off: int = 0;
        proof {
            assert(s0.take(0) =~= Seq::<char>::empty());
            assert(encode_utf8(Seq::<char>::empty()) =~= Seq::<u8>::empty());
        }
        loop
            invariant
                self.wf(),
                self.is_ascii_path() == ascii,
                ascii == old(self).is_ascii_path(),
                s0 == old(self)@.0,
                o0 == old(self)@.1,
                0 <= off <= s0.len(),
                self@.0 == s0.skip(off),
                self@.1 == o0 + utf8_len(s0.take(off)),
                ascii ==> is_ascii_chars(self@.0),
                first_word(ascii, s0) == shift(first_word(ascii, self@.0), off),
            decreases self@.0.len(),
        {
            let ghost cur = self@.0;
            let item = match &mut self.inner {
                IndicesIter::Ascii(i) => i.next(),
                IndicesIter::Unicode(u) => u.next(),
            };
            match item {
                None => {
                    return None;
                },
                Some(t) => {
                    let ok = match &self.inner {
                        IndicesIter::Ascii(_) => ascii_word_ok(&t),
                        IndicesIter::Unicode(_) => unicode_word_ok(&t),
                    };
                    proof {
                        lemma_front_step(ascii, s0, off);
                        off = off + bound_len(ascii, cur);
                    }
                    if ok {
                        return Some(t);
                    }
                },
            }
        }
    }

    /// The next word from the back, with its byte offset.
    #[verifier::rlimit(50)]
    pub fn next_back(&mut self) -> (r: Option<(usize, &'a str)>)
        requires
            old(self).wf(),
        ensures
            final(self).wf(),
            final(self).is_ascii_path() == old(self).is_ascii_path(),
            match last_word(old(self).is_ascii_path(), old(self)@.0) {
                Some((a, b)) => r matches Some((pos, w)) && pos == old(self)@.1 + utf8_len(
                    old(self)@.0.take(a),
                ) && w@ == old(self)@.0.subrange(a, b) && final(self)@ == (
                    old(self)@.0.take(a),
                    old(self)@.1,
                ),
                None => r is None && final(self)@.0.len() == 0,
            },
    {
        let ghost ascii = self.is_ascii_path();
        let ghost s0 = self@.0;
        let ghost o0 = self@.1;
        loop
            invariant
                self.wf(),
                self.is_ascii_path() == ascii,
                ascii == old(self).is_ascii_path(),
                s0 == old(self)@.0,
                o0 == old(self)@.1,
                self@.1 == o0,
                self@.0.len() <= s0.len(),
                self@.0 == s0.take(self@.0.len() as int),
                ascii ==> is_ascii_chars(self@.0),
                last_word(ascii, s0) == last_word(ascii, self@.0),
            decreases self@.0.len(),
        {
            let ghost cur = self@.0;
            let item = match &mut self.inner {
                IndicesIter::Ascii(i) => i.next_back(),
                IndicesIter::Unicode(u) => u.next_back(),
            };
            match item {
                None => {
                    return None;
                },
                Some(t) => {
                    let ok = match &self.inner {
                        IndicesIter::Ascii(_) => ascii_word_ok(&t),
                        IndicesIter::Unicode(_) => unicode_word_ok(&t),
                    };
                    proof {
                        lemma_back_step(ascii, s0, cur.len() as int);
                    }
                    if ok {
                        return Some(t);
                    }
                },
            }
        }
    }

    /// Bounds on the number of words left: none known below, and on the
    /// general path at most one per byte.
    pub fn size_hint(&self) -> (r: (usize, Option<usize>))
        requires
            self.wf(),
        ensures
            r.0 == 0,
            self.is_ascii_path() ==> r.1 is None,
            !self.is_ascii_path() ==> r.1 == Some(utf8_len(self@.0) as usize),
    {
        match &self.inner {
            IndicesIter::Ascii(_) => (0, None),
            IndicesIter::Unicode(u) => {
                let (_, upper) = u.size_hint();
                (0, upper)
            },
        }
    }
}

/// The words of the ASCII text `s`, found by the fast path.
pub fn new_unicode_words_ascii<'a>(s: &'a str) -> (r: UnicodeWords<'a>)
    requires
        is_ascii_chars(s@),
    ensures
        r.wf(),
        r@ == s@,
        r.is_ascii_path(),
{
    UnicodeWords { inner: WordsIter::Ascii(new_ascii_word_bound_indices(s)) }
}

/// The words of `s`, found by the general rules.
pub fn new_unicode_words_general<'a>(s: &'a str) -> (r: UnicodeWords<'a>)
    ensures
        r.wf(),
        r@ == s@,
        !r.is_ascii_path(),
{
    UnicodeWords { inner: WordsIter::Unicode(new_word_bounds(s)) }
}

/// The words of `s`: the fast path for ASCII text, the general rules
/// otherwise.
pub fn new_unicode_words(s: &str) -> (r: UnicodeWords<'_>)
    ensures
        r.wf(),
        r@ == s@,
        r.is_ascii_path() == is_ascii_chars(s@),
{
    if s.is_ascii() {
        new_unicode_words_ascii(s)
    } else {
        new_unicode_words_general(s)
    }
}

/// The words of `s` with their byte offsets: the fast path for ASCII text,
/// the general rules otherwise.
pub fn new_unicode_word_indices(s: &str) -> (r: UnicodeWordIndices<'_>)
    ensures
        r.wf(),
        r@ == (s@, 0int),
        r.is_ascii_path() == is_ascii_chars(s@),
{
    let inner = if s.is_ascii() {
        IndicesIter::Ascii(new_ascii_word_bound_indices(s))
    } else {
        IndicesIter::Unicode(new_word_bound_indices(s))
    };
    UnicodeWordIndices { inner }
}

} // verus!
