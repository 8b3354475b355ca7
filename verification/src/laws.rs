//! Laws of the segmenter: on ASCII text the byte-level fast path finds
//! exactly the boundaries that the general rules find, forward and backward;
//! the segments cover the text and their byte offsets point at them;
//! `size_hint` bounds their number; and the words are the segments that hold
//! a letter or a digit.
use vstd::prelude::*;
use crate::tables::{
    WordCat, word_cat, is_extended_pictographic, ascii_word_cat, lemma_ascii_word_cat,
    lemma_ascii_not_pictographic, alnum_of,
};
use crate::ascii_rules::{
    is_digit_byte, is_alpha_byte, is_core_byte, space_run, core_run, ascii_fwd_len,
    space_start, core_start, ascii_back_start, ascii_bytes,
};
use crate::word_rules::{
    UWordBoundsState, FwdCursor, FwdStep, BackCursor, BackStep, fwd_step,
    fwd_scan, fwd_start, fwd_len, back_step, back_scan, back_start_cursor, back_start,
};
use vstd::utf8::is_ascii_chars;
use crate::text::{utf8_len, lemma_encode_utf8_concat};
use vstd::utf8::encode_utf8;
use crate::word::{
    bound_len, bound_start, is_word, first_word, last_word, has_alnum, has_ascii_alnum,
    is_ascii_alnum_char,
};
use crate::ascii_rules::{lemma_ascii_fwd_len_bounds, lemma_ascii_back_start_bounds};
use crate::word_rules::{lemma_fwd_len_bounds, lemma_back_start_bounds};

verus! {

/// The categories of the characters of an ASCII text, read off its bytes.
pub open spec fn ascii_agree(s: Seq<char>, b: Seq<u8>) -> bool {
    &&& b.len() == s.len()
    &&& forall|i: int|
        #![trigger s[i]]
        0 <= i < s.len() ==> word_cat(s[i]) == ascii_word_cat(b[i])
            && !is_extended_pictographic(s[i])
}

pub proof fn lemma_ascii_agree(s: Seq<char>)
    requires
        is_ascii_chars(s),
    ensures
        ascii_agree(s, ascii_bytes(s)),
{
    let b = ascii_bytes(s);
    assert forall|i: int| #![trigger s[i]] 0 <= i < s.len() implies word_cat(s[i]) == ascii_word_cat(
        b[i],
    ) && !is_extended_pictographic(s[i]) by {
        assert('\0' <= s[i] <= '\u{7f}');
        lemma_ascii_word_cat(s[i]);
        lemma_ascii_not_pictographic(s[i]);
    }
}

/// The scan state after a core byte.
pub open spec fn core_state(b: u8) -> UWordBoundsState {
    if is_alpha_byte(b) {
        UWordBoundsState::Letter
    } else if is_digit_byte(b) {
        UWordBoundsState::Numeric
    } else {
        UWordBoundsState::ExtendNumLet
    }
}

proof fn lemma_fwd_space(s: Seq<char>, b: Seq<u8>, i: int, k: FwdCursor)
    requires
        ascii_agree(s, b),
        1 <= i <= s.len(),
        k.state == UWordBoundsState::WSegSpace,
        !k.skipped,
        k.cat != WordCat::WC_ZWJ,
    ensures
        fwd_scan(s, i, k) == space_run(b, i),
    decreases s.len() - i,
{
    if i < s.len() {
        let _ = s[i];
        if let FwdStep::Go(k2) = fwd_step(s, i, k) {
            lemma_fwd_space(s, b, i + 1, k2);
        }
    }
}

proof fn lemma_fwd_core(s: Seq<char>, b: Seq<u8>, i: int, k: FwdCursor)
    requires
        ascii_agree(s, b),
        1 <= i <= s.len(),
        is_core_byte(b[i - 1]),
        k.state == core_state(b[i - 1]),
        k.cat != WordCat::WC_ZWJ,
    ensures
        fwd_scan(s, i, k) == core_run(b, i),
    decreases s.len() - i,
{
    reveal_with_fuel(fwd_scan, 3);
    reveal_with_fuel(core_run, 3);
    if i < s.len() {
        let _ = s[i];
        let _ = s[i - 1];
        if let FwdStep::Go(k2) = fwd_step(s, i, k) {
            if is_core_byte(b[i]) {
                lemma_fwd_core(s, b, i + 1, k2);
            } else if i + 1 < s.len() {
                let _ = s[i + 1];
                if let FwdStep::Go(k3) = fwd_step(s, i + 1, k2) {
                    lemma_fwd_core(s, b, i + 2, k3);
                    assert(core_run(b, i + 1) == core_run(b, i + 2));
                }
            }
        }
    }
}

/// On ASCII text, the fast path and the general rules agree on the first
/// segment.
pub proof fn lemma_ascii_fwd_matches(s: Seq<char>)
    requires
        is_ascii_chars(s),
        s.len() > 0,
    ensures
        ascii_fwd_len(ascii_bytes(s)) == fwd_len(s),
{
    let b = ascii_bytes(s);
    lemma_ascii_agree(s);
    let _ = s[0];
    if s.len() > 1 {
        let _ = s[1];
    }
    if let FwdStep::Go(k1) = fwd_step(s, 0, fwd_start()) {
        if b[0] == 0x20 {
            lemma_fwd_space(s, b, 1, k1);
        } else {
            lemma_fwd_core(s, b, 1, k1);
        }
    }
}

proof fn lemma_back_space(s: Seq<char>, b: Seq<u8>, i: int, k: BackCursor)
    requires
        ascii_agree(s, b),
        -1 <= i < s.len() - 1,
        k.state == UWordBoundsState::WSegSpace,
        !k.skipped,
        k.idx == i + 1,
    ensures
        back_scan(s, i, k) == space_start(b, i + 1),
    decreases i + 1,
{
    if i >= 0 {
        let _ = s[i];
        if let BackStep::Go(k2) = back_step(s, i, k) {
            lemma_back_space(s, b, i - 1, k2);
        }
    }
}

proof fn lemma_back_core(s: Seq<char>, b: Seq<u8>, i: int, k: BackCursor)
    requires
        ascii_agree(s, b),
        -1 <= i < s.len() - 1,
        is_core_byte(b[i + 1]),
        k.state == core_state(b[i + 1]),
        k.idx == i + 1,
    ensures
        back_scan(s, i, k) == core_start(b, i + 1),
    decreases i + 1,
{
    reveal_with_fuel(back_scan, 3);
    reveal_with_fuel(core_start, 3);
    if i >= 0 {
        let _ = s[i];
        let _ = s[i + 1];
        if let BackStep::Go(k2) = back_step(s, i, k) {
            if is_core_byte(b[i]) {
                lemma_back_core(s, b, i - 1, k2);
            } else if i >= 1 {
                let _ = s[i - 1];
                if let BackStep::Go(k3) = back_step(s, i - 1, k2) {
                    lemma_back_core(s, b, i - 2, k3);
                    assert(core_start(b, i) == core_start(b, i - 1));
                }
            }
        }
    }
}

/// On ASCII text, the fast path and the general rules agree on the last
/// segment.
pub proof fn lemma_ascii_back_matches(s: Seq<char>)
    requires
        is_ascii_chars(s),
        s.len() > 0,
    ensures
        ascii_back_start(ascii_bytes(s)) == back_start(s),
{
    reveal_with_fuel(back_scan, 3);
    let n = s.len() as int;
    let b = ascii_bytes(s);
    lemma_ascii_agree(s);
    let _ = s[n - 1];
    if n > 1 {
        let _ = s[n - 2];
    }
    if let BackStep::Go(k1) = back_step(s, n - 1, back_start_cursor(s)) {
        if b[n - 1] == 0x20 {
            lemma_back_space(s, b, n - 2, k1);
        } else if is_core_byte(b[n - 1]) {
            lemma_back_core(s, b, n - 2, k1);
        }
    }
}

/// The segments of `s` with their byte offsets, from the front, where `s`
/// starts at byte `off`: what `next` yields, call after call.
pub open spec fn bounds_forward(ascii: bool, s: Seq<char>, off: int) -> Seq<(int, Seq<char>)>
    decreases s.len(),
{
    let l = bound_len(ascii, s);
    if s.len() == 0 || l < 1 || l > s.len() {
        Seq::empty()
    } else {
        seq![(off, s.take(l))] + bounds_forward(ascii, s.skip(l), off + utf8_len(s.take(l)))
    }
}

/// The segments of `s` with their byte offsets, from the back, where `s`
/// starts at byte `off`: what `next_back` yields, call after call.
pub open spec fn bounds_backward(ascii: bool, s: Seq<char>, off: int) -> Seq<(int, Seq<char>)>
    decreases s.len(),
{
    let st = bound_start(ascii, s);
    if s.len() == 0 || st < 0 || st >= s.len() {
        Seq::empty()
    } else {
        seq![(off + utf8_len(s.take(st)), s.skip(st))] + bounds_backward(ascii, s.take(st), off)
    }
}

/// The fast path must equal the general path for any ASCII input: iterated
/// from the front, both yield the same segments at the same offsets.
pub proof fn law_ascii_bounds_forward(s: Seq<char>, off: int)
    requires
        is_ascii_chars(s),
    ensures
        bounds_forward(true, s, off) == bounds_forward(false, s, off),
    decreases s.len(),
{
    if s.len() > 0 {
        lemma_ascii_fwd_matches(s);
        let l = fwd_len(s);
        lemma_fwd_len_bounds(s);
        assert(is_ascii_chars(s.skip(l)));
        law_ascii_bounds_forward(s.skip(l), off + utf8_len(s.take(l)));
    }
}

/// The fast path must equal the general path for any ASCII input: iterated
/// from the back, both yield the same segments at the same offsets.
pub proof fn law_ascii_bounds_backward(s: Seq<char>, off: int)
    requires
        is_ascii_chars(s),
    ensures
        bounds_backward(true, s, off) == bounds_backward(false, s, off),
    decreases s.len(),
{
    if s.len() > 0 {
        lemma_ascii_back_matches(s);
        let st = back_start(s);
        lemma_back_start_bounds(s);
        assert(is_ascii_chars(s.take(st)));
        law_ascii_bounds_backward(s.take(st), off);
    }
}

/// The text of a sequence of indexed segments, concatenated.
pub open spec fn concat_segments(v: Seq<(int, Seq<char>)>) -> Seq<char>
    decreases v.len(),
{
    if v.len() == 0 {
        Seq::empty()
    } else {
        v[0].1 + concat_segments(v.drop_first())
    }
}

/// The word bounds from the front cover the text: their concatenation is
/// the text itself, and each one is non-empty.
pub proof fn law_bounds_forward_cover(ascii: bool, s: Seq<char>, off: int)
    requires
        ascii ==> is_ascii_chars(s),
    ensures
        concat_segments(bounds_forward(ascii, s, off)) == s,
        forall|i: int|
            0 <= i < bounds_forward(ascii, s, off).len() ==> #[trigger] bounds_forward(
                ascii,
                s,
                off,
            )[i].1.len() > 0,
    decreases s.len(),
{
    if s.len() > 0 {
        let l = bound_len(ascii, s);
        if ascii {
            lemma_ascii_fwd_len_bounds(crate::ascii_rules::ascii_bytes(s));
        } else {
            lemma_fwd_len_bounds(s);
        }
        let rest = s.skip(l);
        assert(ascii ==> is_ascii_chars(rest));
        law_bounds_forward_cover(ascii, rest, off + utf8_len(s.take(l)));
        let v = bounds_forward(ascii, s, off);
        assert(v.drop_first() =~= bounds_forward(ascii, rest, off + utf8_len(s.take(l))));
        assert(s =~= s.take(l) + rest);
        assert forall|i: int| 0 <= i < v.len() implies #[trigger] v[i].1.len() > 0 by {
            if i > 0 {
                assert(v[i] == v.drop_first()[i - 1]);
            }
        }
    } else {
        assert(concat_segments(Seq::<(int, Seq<char>)>::empty()) =~= s);
    }
}

/// The text of a sequence of indexed segments listed last first,
/// concatenated in text order.
pub open spec fn concat_segments_rev(v: Seq<(int, Seq<char>)>) -> Seq<char>
    decreases v.len(),
{
    if v.len() == 0 {
        Seq::empty()
    } else {
        concat_segments_rev(v.drop_first()) + v[0].1
    }
}

/// The word bounds from the back cover the text: read in text order, their
/// concatenation is the text itself, and each one is non-empty.
pub proof fn law_bounds_backward_cover(ascii: bool, s: Seq<char>, off: int)
    requires
        ascii ==> is_ascii_chars(s),
    ensures
        concat_segments_rev(bounds_backward(ascii, s, off)) == s,
        forall|i: int|
            0 <= i < bounds_backward(ascii, s, off).len() ==> #[trigger] bounds_backward(
                ascii,
                s,
                off,
            )[i].1.len() > 0,
    decreases s.len(),
{
    if s.len() > 0 {
        let st = bound_start(ascii, s);
        if ascii {
            lemma_ascii_back_start_bounds(crate::ascii_rules::ascii_bytes(s));
        } else {
            lemma_back_start_bounds(s);
        }
        let rest = s.take(st);
        assert(ascii ==> is_ascii_chars(rest));
        law_bounds_backward_cover(ascii, rest, off);
        let v = bounds_backward(ascii, s, off);
        let head = (off + utf8_len(s.take(st)), s.skip(st));
        assert(v == seq![head] + bounds_backward(ascii, rest, off));
        assert(v.drop_first() =~= bounds_backward(ascii, rest, off));
        assert(v[0] == head);
        assert(concat_segments_rev(v) == concat_segments_rev(v.drop_first()) + v[0].1);
        assert(s =~= rest + s.skip(st));
        assert forall|i: int| 0 <= i < v.len() implies #[trigger] v[i].1.len() > 0 by {
            if i > 0 {
                assert(v[i] == v.drop_first()[i - 1]);
            }
        }
    } else {
        assert(concat_segments_rev(Seq::<(int, Seq<char>)>::empty()) =~= s);
    }
}

/// What `size_hint` reports bounds the number of segments left: at least
/// one while text is left, and at most one per byte.
pub proof fn law_size_hint_bounds(s: Seq<char>, off: int)
    ensures
        s.len() > 0 ==> bounds_forward(false, s, off).len() >= 1,
        bounds_forward(false, s, off).len() <= utf8_len(s),
    decreases s.len(),
{
    crate::text::lemma_utf8_len_at_least_chars(s);
    if s.len() > 0 {
        let l = fwd_len(s);
        lemma_fwd_len_bounds(s);
        law_size_hint_bounds(s.skip(l), off + utf8_len(s.take(l)));
        crate::text::lemma_utf8_len_split(s, l);
        crate::text::lemma_utf8_len_at_least_chars(s.take(l));
        crate::text::lemma_utf8_len_at_least_chars(s.skip(l));
    }
}

// ---------------------------------------------------------------------------
// Words
/// The segments of an indexed sequence that count as words, in order.
pub open spec fn word_segments(ascii: bool, v: Seq<(int, Seq<char>)>) -> Seq<Seq<char>>
    decreases v.len(),
{
    if v.len() == 0 {
        Seq::empty()
    } else if is_word(ascii, v[0].1) {
        seq![v[0].1] + word_segments(ascii, v.drop_first())
    } else {
        word_segments(ascii, v.drop_first())
    }
}

/// The words of `s` from the front: what `UnicodeWords::next` yields, call
/// after call.
pub open spec fn words_forward(ascii: bool, s: Seq<char>) -> Seq<Seq<char>>
    decreases s.len(),
{
    match first_word(ascii, s) {
        Some((a, b)) => if 0 <= a < b <= s.len() {
            seq![s.subrange(a, b)] + words_forward(ascii, s.skip(b))
        } else {
            Seq::empty()
        },
        None => Seq::empty(),
    }
}

/// The words of `s` from the back: what `UnicodeWords::next_back` yields,
/// call after call.
pub open spec fn words_backward(ascii: bool, s: Seq<char>) -> Seq<Seq<char>>
    decreases s.len(),
{
    match last_word(ascii, s) {
        Some((a, b)) => if 0 <= a < b <= s.len() {
            seq![s.subrange(a, b)] + words_backward(ascii, s.take(a))
        } else {
            Seq::empty()
        },
        None => Seq::empty(),
    }
}

proof fn lemma_bound_len_bounds(ascii: bool, s: Seq<char>)
    requires
        s.len() > 0,
    ensures
        1 <= bound_len(ascii, s) <= s.len(),
{
    if ascii {
        lemma_ascii_fwd_len_bounds(crate::ascii_rules::ascii_bytes(s));
    } else {
        lemma_fwd_len_bounds(s);
    }
}

proof fn lemma_bound_start_bounds(ascii: bool, s: Seq<char>)
    requires
        s.len() > 0,
    ensures
        0 <= bound_start(ascii, s) < s.len(),
{
    if ascii {
        lemma_ascii_back_start_bounds(crate::ascii_rules::ascii_bytes(s));
    } else {
        lemma_back_start_bounds(s);
    }
}

proof fn lemma_first_word_bounds(ascii: bool, s: Seq<char>)
    ensures
        first_word(ascii, s) matches Some((a, b)) ==> 0 <= a < b <= s.len(),
    decreases s.len(),
{
    if s.len() > 0 {
        let l = bound_len(ascii, s);
        lemma_bound_len_bounds(ascii, s);
        lemma_first_word_bounds(ascii, s.skip(l));
    }
}

proof fn lemma_last_word_bounds(ascii: bool, s: Seq<char>)
    ensures
        last_word(ascii, s) matches Some((a, b)) ==> 0 <= a < b <= s.len(),
    decreases s.len(),
{
    if s.len() > 0 {
        let st = bound_start(ascii, s);
        lemma_bound_start_bounds(ascii, s);
        lemma_last_word_bounds(ascii, s.take(st));
    }
}

/// The words from the front are the word bounds from the front that hold a
/// letter or a digit, in order: `UnicodeWords` filters `UWordBounds`.
pub proof fn law_words_forward_filter_bounds(ascii: bool, s: Seq<char>, off: int)
    ensures
        words_forward(ascii, s) == word_segments(ascii, bounds_forward(ascii, s, off)),
    decreases s.len(),
{
    if s.len() > 0 {
        let l = bound_len(ascii, s);
        lemma_bound_len_bounds(ascii, s);
        let rest = s.skip(l);
        let rest_off = off + utf8_len(s.take(l));
        law_words_forward_filter_bounds(ascii, rest, rest_off);
        let v = bounds_forward(ascii, s, off);
        assert(v.drop_first() =~= bounds_forward(ascii, rest, rest_off));
        assert(v[0].1 == s.take(l));
        if is_word(ascii, s.take(l)) {
            assert(s.subrange(0, l) =~= s.take(l));
        } else {
            lemma_first_word_bounds(ascii, rest);
            if let Some((a, b)) = first_word(ascii, rest) {
                assert(rest.subrange(a, b) =~= s.subrange(a + l, b + l));
                assert(rest.skip(b) =~= s.skip(b + l));
            }
        }
    }
}

/// The words from the back are the word bounds from the back that hold a
/// letter or a digit, in order: `UnicodeWords` filters `UWordBounds`.
pub proof fn law_words_backward_filter_bounds(ascii: bool, s: Seq<char>, off: int)
    ensures
        words_backward(ascii, s) == word_segments(ascii, bounds_backward(ascii, s, off)),
    decreases s.len(),
{
    if s.len() > 0 {
        let st = bound_start(ascii, s);
        lemma_bound_start_bounds(ascii, s);
        let rest = s.take(st);
        law_words_backward_filter_bounds(ascii, rest, off);
        let v = bounds_backward(ascii, s, off);
        assert(v.drop_first() =~= bounds_backward(ascii, rest, off));
        assert(v[0].1 == s.skip(st));
        if is_word(ascii, s.skip(st)) {
            assert(s.subrange(st, s.len() as int) =~= s.skip(st));
        } else {
            lemma_last_word_bounds(ascii, rest);
            if let Some((a, b)) = last_word(ascii, rest) {
                assert(rest.subrange(a, b) =~= s.subrange(a, b));
                assert(rest.take(a) =~= s.take(a));
            }
        }
    }
}

// ---------------------------------------------------------------------------
// Byte offsets
/// Whether the indexed segment `t` of a text `s` that starts at byte `off`
/// sits where its offset says: the bytes of `s` from `t.0` on spell `t.1`.
pub open spec fn located(s: Seq<char>, off: int, t: (int, Seq<char>)) -> bool {
    let b = encode_utf8(s);
    let start = t.0 - off;
    &&& 0 <= start
    &&& start + utf8_len(t.1) <= b.len()
    &&& b.subrange(start, start + utf8_len(t.1)) == encode_utf8(t.1)
}

/// Iterated from the front, every segment's byte offset points at its bytes
/// in the text.
pub proof fn law_offsets_locate_forward(ascii: bool, s: Seq<char>, off: int)
    ensures
        forall|j: int|
            0 <= j < bounds_forward(ascii, s, off).len() ==> located(
                s,
                off,
                #[trigger] bounds_forward(ascii, s, off)[j],
            ),
    decreases s.len(),
{
    if s.len() > 0 {
        let l = bound_len(ascii, s);
        lemma_bound_len_bounds(ascii, s);
        let head = s.take(l);
        let rest = s.skip(l);
        let rest_off = off + utf8_len(head);
        law_offsets_locate_forward(ascii, rest, rest_off);
        let v = bounds_forward(ascii, s, off);
        let w = bounds_forward(ascii, rest, rest_off);
        assert(v.drop_first() =~= w);
        assert(s =~= head + rest);
        lemma_encode_utf8_concat(head, rest);
        let b = encode_utf8(s);
        let hb = encode_utf8(head);
        let rb = encode_utf8(rest);
        assert(b == hb + rb);
        assert forall|j: int| 0 <= j < v.len() implies located(s, off, #[trigger] v[j]) by {
            if j == 0 {
                assert(b.subrange(0, hb.len() as int) =~= hb);
            } else {
                let t = w[j - 1];
                assert(v[j] == t);
                assert(located(rest, rest_off, t));
                let st = t.0 - rest_off;
                assert(b.subrange(st + hb.len(), st + hb.len() + utf8_len(t.1)) =~= rb.subrange(
                    st,
                    st + utf8_len(t.1),
                ));
            }
        }
    }
}

/// Iterated from the back, every segment's byte offset points at its bytes
/// in the text.
pub proof fn law_offsets_locate_backward(ascii: bool, s: Seq<char>, off: int)
    ensures
        forall|j: int|
            0 <= j < bounds_backward(ascii, s, off).len() ==> located(
                s,
                off,
                #[trigger] bounds_backward(ascii, s, off)[j],
            ),
    decreases s.len(),
{
    if s.len() > 0 {
        let st = bound_start(ascii, s);
        lemma_bound_start_bounds(ascii, s);
        let rest = s.take(st);
        let tail = s.skip(st);
        law_offsets_locate_backward(ascii, rest, off);
        let v = bounds_backward(ascii, s, off);
        let w = bounds_backward(ascii, rest, off);
        assert(v.drop_first() =~= w);
        assert(s =~= rest + tail);
        lemma_encode_utf8_concat(rest, tail);
        let b = encode_utf8(s);
        let rb = encode_utf8(rest);
        let tb = encode_utf8(tail);
        assert(b == rb + tb);
        assert forall|j: int| 0 <= j < v.len() implies located(s, off, #[trigger] v[j]) by {
            if j == 0 {
                assert(v[0] == (off + utf8_len(rest), tail));
                assert(b.subrange(rb.len() as int, (rb.len() + tb.len()) as int) =~= tb);
            } else {
                let t = w[j - 1];
                assert(v[j] == t);
                assert(located(rest, off, t));
                let p = t.0 - off;
                assert(b.subrange(p, p + utf8_len(t.1)) =~= rb.subrange(p, p + utf8_len(t.1)));
            }
        }
    }
}

// ---------------------------------------------------------------------------
// The ASCII word test
/// On ASCII text, holding an ASCII letter or digit is holding an
/// alphanumeric character: the word tests of the two paths agree.
pub proof fn law_ascii_alnum_agree(s: Seq<char>)
    requires
        is_ascii_chars(s),
    ensures
        has_alnum(s) == has_ascii_alnum(s),
{
    assert forall|i: int| 0 <= i < s.len() implies alnum_of(s[i]) == is_ascii_alnum_char(#[trigger] s[i]) by {
        assert('\0' <= s[i] <= '\u{7f}');
        crate::tables::lemma_ascii_alnum(s[i]);
    }
    if has_alnum(s) {
        let i = choose|i: int| 0 <= i < s.len() && alnum_of(#[trigger] s[i]);
        assert(is_ascii_alnum_char(s[i]));
    }
    if has_ascii_alnum(s) {
        let i = choose|i: int| 0 <= i < s.len() && is_ascii_alnum_char(#[trigger] s[i]);
        assert(alnum_of(s[i]));
    }
}

proof fn lemma_first_word_ascii(s: Seq<char>)
    requires
        is_ascii_chars(s),
    ensures
        first_word(true, s) == first_word(false, s),
    decreases s.len(),
{
    if s.len() > 0 {
        lemma_ascii_fwd_matches(s);
        let l = fwd_len(s);
        lemma_fwd_len_bounds(s);
        assert(is_ascii_chars(s.take(l)));
        law_ascii_alnum_agree(s.take(l));
        assert(is_ascii_chars(s.skip(l)));
        lemma_first_word_ascii(s.skip(l));
    }
}

proof fn lemma_last_word_ascii(s: Seq<char>)
    requires
        is_ascii_chars(s),
    ensures
        last_word(true, s) == last_word(false, s),
    decreases s.len(),
{
    if s.len() > 0 {
        lemma_ascii_back_matches(s);
        let st = back_start(s);
        lemma_back_start_bounds(s);
        assert(is_ascii_chars(s.skip(st)));
        law_ascii_alnum_agree(s.skip(st));
        assert(is_ascii_chars(s.take(st)));
        lemma_last_word_ascii(s.take(st));
    }
}

/// On ASCII text the fast path and the general rules find the same words
/// from the front: the segments that hold an alphanumeric character.
pub proof fn law_ascii_words_forward(s: Seq<char>)
    requires
        is_ascii_chars(s),
    ensures
        words_forward(true, s) == words_forward(false, s),
    decreases s.len(),
{
    lemma_first_word_ascii(s);
    lemma_first_word_bounds(false, s);
    if let Some((a, b)) = first_word(false, s) {
        assert(is_ascii_chars(s.skip(b)));
        law_ascii_words_forward(s.skip(b));
    }
}

/// On ASCII text the fast path and the general rules find the same words
/// from the back.
pub proof fn law_ascii_words_backward(s: Seq<char>)
    requires
        is_ascii_chars(s),
    ensures
        words_backward(true, s) == words_backward(false, s),
    decreases s.len(),
{
    lemma_last_word_ascii(s);
    lemma_last_word_bounds(false, s);
    if let Some((a, b)) = last_word(false, s) {
        assert(is_ascii_chars(s.take(a)));
        law_ascii_words_backward(s.take(a));
    }
}

// ---------------------------------------------------------------------------
// Words with their offsets
/// The segments of an indexed sequence that count as words, with their
/// offsets, in order.
pub open spec fn indexed_word_segments(ascii: bool, v: Seq<(int, Seq<char>)>) -> Seq<(int, Seq<char>)>
    decreases v.len(),
{
    if v.len() == 0 {
        Seq::empty()
    } else if is_word(ascii, v[0].1) {
        seq![v[0]] + indexed_word_segments(ascii, v.drop_first())
    } else {
        indexed_word_segments(ascii, v.drop_first())
    }
}

/// The words of `s` with their byte offsets, from the front, where `s`
/// starts at byte `off`: what `UnicodeWordIndices::next` yields, call after
/// call.
pub open spec fn word_indices_forward(ascii: bool, s: Seq<char>, off: int) -> Seq<(int, Seq<char>)>
    decreases s.len(),
{
    match first_word(ascii, s) {
        Some((a, b)) => if 0 <= a < b <= s.len() {
            seq![(off + utf8_len(s.take(a)), s.subrange(a, b))] + word_indices_forward(
                ascii,
                s.skip(b),
                off + utf8_len(s.take(b)),
            )
        } else {
            Seq::empty()
        },
        None => Seq::empty(),
    }
}

/// The words of `s` with their byte offsets, from the back: what
/// `UnicodeWordIndices::next_back` yields, call after call.
pub open spec fn word_indices_backward(ascii: bool, s: Seq<char>, off: int) -> Seq<(int, Seq<char>)>
    decreases s.len(),
{
    match last_word(ascii, s) {
        Some((a, b)) => if 0 <= a < b <= s.len() {
            seq![(off + utf8_len(s.take(a)), s.subrange(a, b))] + word_indices_backward(
                ascii,
                s.take(a),
                off,
            )
        } else {
            Seq::empty()
        },
        None => Seq::empty(),
    }
}

/// The words with offsets from the front are the word bounds with offsets
/// from the front that hold a letter or a digit: `UnicodeWordIndices`
/// filters `UWordBoundIndices`.
pub proof fn law_word_indices_forward_filter_bounds(ascii: bool, s: Seq<char>, off: int)
    ensures
        word_indices_forward(ascii, s, off) == indexed_word_segments(
            ascii,
            bounds_forward(ascii, s, off),
        ),
    decreases s.len(),
{
    if s.len() > 0 {
        let l = bound_len(ascii, s);
        lemma_bound_len_bounds(ascii, s);
        let rest = s.skip(l);
        let rest_off = off + utf8_len(s.take(l));
        law_word_indices_forward_filter_bounds(ascii, rest, rest_off);
        let v = bounds_forward(ascii, s, off);
        assert(v.drop_first() =~= bounds_forward(ascii, rest, rest_off));
        assert(v[0] == (off, s.take(l)));
        assert(utf8_len(s.take(0)) == 0) by {
            assert(encode_utf8(s.take(0)) =~= Seq::<u8>::empty());
        }
        if is_word(ascii, s.take(l)) {
            assert(s.subrange(0, l) =~= s.take(l));
        } else {
            lemma_first_word_bounds(ascii, rest);
            if let Some((a, b)) = first_word(ascii, rest) {
                assert(rest.subrange(a, b) =~= s.subrange(a + l, b + l));
                assert(rest.skip(b) =~= s.skip(b + l));
                assert(s.take(a + l) =~= s.take(l) + rest.take(a));
                assert(s.take(b + l) =~= s.take(l) + rest.take(b));
                lemma_encode_utf8_concat(s.take(l), rest.take(a));
                lemma_encode_utf8_concat(s.take(l), rest.take(b));
            }
        }
    } else {
        assert(word_indices_forward(ascii, s, off) =~= Seq::<(int, Seq<char>)>::empty());
    }
}

/// The words with offsets from the back are the word bounds with offsets
/// from the back that hold a letter or a digit.
pub proof fn law_word_indices_backward_filter_bounds(ascii: bool, s: Seq<char>, off: int)
    ensures
        word_indices_backward(ascii, s, off) == indexed_word_segments(
            ascii,
            bounds_backward(ascii, s, off),
        ),
    decreases s.len(),
{
    if s.len() > 0 {
        let st = bound_start(ascii, s);
        lemma_bound_start_bounds(ascii, s);
        let rest = s.take(st);
        law_word_indices_backward_filter_bounds(ascii, rest, off);
        let v = bounds_backward(ascii, s, off);
        assert(v.drop_first() =~= bounds_backward(ascii, rest, off));
        assert(v[0] == (off + utf8_len(s.take(st)), s.skip(st)));
        if is_word(ascii, s.skip(st)) {
            assert(s.subrange(st, s.len() as int) =~= s.skip(st));
        } else {
            lemma_last_word_bounds(ascii, rest);
            if let Some((a, b)) = last_word(ascii, rest) {
                assert(rest.subrange(a, b) =~= s.subrange(a, b));
                assert(rest.take(a) =~= s.take(a));
            }
        }
    } else {
        assert(word_indices_backward(ascii, s, off) =~= Seq::<(int, Seq<char>)>::empty());
    }
}

/// A segment counts as a word exactly when one of its characters, wherever
/// it stands, has the Alphabetic property or a Number category (on the fast
/// path: is an ASCII letter or digit).
pub proof fn law_word_test(w: Seq<char>, i: int)
    ensures
        (0 <= i < w.len() && alnum_of(w[i])) ==> is_word(false, w),
        (0 <= i < w.len() && is_ascii_alnum_char(w[i])) ==> is_word(true, w),
        (forall|j: int| 0 <= j < w.len() ==> !alnum_of(#[trigger] w[j])) ==> !is_word(false, w),
        (forall|j: int| 0 <= j < w.len() ==> !is_ascii_alnum_char(#[trigger] w[j])) ==> !is_word(
            true,
            w,
        ),
{
}

} // verus!
