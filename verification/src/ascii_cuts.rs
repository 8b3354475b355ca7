//! The boundaries of the ASCII fast path as a local property of the bytes
//! around each position, and the law that follows from it: iterating an
//! ASCII text from the back gives the segments that iterating it from the
//! front gives, in reverse order.
use vstd::prelude::*;
use crate::ascii_rules::{
    is_digit_byte, is_alpha_byte, is_core_byte, is_infix_byte, space_run, core_run, ascii_fwd_len,
    space_start, core_start, ascii_back_start, ascii_bytes,
};
use crate::laws::{
    bounds_forward, bounds_backward, word_segments, words_forward, words_backward,
    law_words_forward_filter_bounds, law_words_backward_filter_bounds,
};
use crate::word::is_word;
use crate::text::utf8_len;
use vstd::utf8::{is_ascii_chars, is_ascii_chars_encode_utf8};

verus! {

/// Whether byte `i` can sit inside a run of letters, digits and underscores:
/// it is one of them, or infix punctuation between two of them.
pub open spec fn joinable(b: Seq<u8>, i: int) -> bool {
    is_core_byte(b[i]) || (0 < i < b.len() - 1 && is_infix_byte(b[i], b[i - 1], b[i + 1]))
}

/// Whether the fast path keeps bytes `p - 1` and `p` in one segment: two
/// spaces, CR LF, or two bytes of one run.
pub open spec fn kept(b: Seq<u8>, p: int) -> bool {
    ||| b[p - 1] == 0x20 && b[p] == 0x20
    ||| b[p - 1] == 0x0D && b[p] == 0x0A
    ||| joinable(b, p - 1) && joinable(b, p)
}

/// The first segment of `b` is `l` bytes long: every position before `l`
/// is kept, and `l` is not.
pub open spec fn first_cut(b: Seq<u8>, l: int) -> bool {
    &&& 1 <= l <= b.len()
    &&& forall|p: int| 1 <= p < l ==> #[trigger] kept(b, p)
    &&& l < b.len() ==> !kept(b, l)
}

/// The last segment of `b` starts at `st`: every position after `st` is
/// kept, and `st` is not.
pub open spec fn last_cut(b: Seq<u8>, st: int) -> bool {
    &&& 0 <= st < b.len()
    &&& forall|p: int| st < p < b.len() ==> #[trigger] kept(b, p)
    &&& st > 0 ==> !kept(b, st)
}

proof fn lemma_space_run_cut(b: Seq<u8>, i: int)
    requires
        1 <= i <= b.len(),
        forall|p: int| 0 <= p < i ==> #[trigger] b[p] == 0x20,
    ensures
        first_cut(b, space_run(b, i)),
    decreases b.len() - i,
{
    if i < b.len() && b[i] == 0x20 {
        lemma_space_run_cut(b, i + 1);
    } else {
        assert forall|p: int| 1 <= p < i implies #[trigger] kept(b, p) by {
            assert(b[p - 1] == 0x20 && b[p] == 0x20);
        }
    }
}

proof fn lemma_core_run_cut(b: Seq<u8>, i: int)
    requires
        1 <= i <= b.len(),
        forall|p: int| 0 <= p < i ==> #[trigger] joinable(b, p),
    ensures
        first_cut(b, core_run(b, i)),
    decreases b.len() - i,
{
    if i < b.len() && joinable(b, i) {
        lemma_core_run_cut(b, i + 1);
    } else {
        assert forall|p: int| 1 <= p < i implies #[trigger] kept(b, p) by {
            assert(joinable(b, p - 1) && joinable(b, p));
        }
        if i < b.len() {
            assert(joinable(b, i - 1));
        }
    }
}

/// The fast path's first segment ends at the first position it does not
/// keep.
pub proof fn lemma_ascii_fwd_len_cut(b: Seq<u8>)
    requires
        b.len() > 0,
    ensures
        first_cut(b, ascii_fwd_len(b)),
{
    if b[0] == 0x20 {
        lemma_space_run_cut(b, 1);
    } else if is_core_byte(b[0]) {
        assert(joinable(b, 0));
        lemma_core_run_cut(b, 1);
    } else if b[0] == 0x0D && b.len() >= 2 && b[1] == 0x0A {
        assert(kept(b, 1));
    }
}

proof fn lemma_space_start_cut(b: Seq<u8>, st: int)
    requires
        0 <= st < b.len(),
        forall|p: int| st <= p < b.len() ==> #[trigger] b[p] == 0x20,
    ensures
        last_cut(b, space_start(b, st)),
    decreases st,
{
    if 0 < st && b[st - 1] == 0x20 {
        lemma_space_start_cut(b, st - 1);
    } else {
        assert forall|p: int| st < p < b.len() implies #[trigger] kept(b, p) by {
            assert(b[p - 1] == 0x20 && b[p] == 0x20);
        }
    }
}

proof fn lemma_core_start_cut(b: Seq<u8>, st: int)
    requires
        0 <= st < b.len(),
        forall|p: int| st <= p < b.len() ==> #[trigger] joinable(b, p),
    ensures
        last_cut(b, core_start(b, st)),
    decreases st,
{
    let step = 0 < st < b.len() && (is_core_byte(b[st - 1]) || is_infix_byte(
        b[st - 1],
        if st >= 2 {
            b[st - 2]
        } else {
            b[st - 1]
        },
        b[st],
    ));
    if st > 0 {
        assert(step == joinable(b, st - 1));
    }
    if step {
        lemma_core_start_cut(b, st - 1);
    } else {
        assert forall|p: int| st < p < b.len() implies #[trigger] kept(b, p) by {
            assert(joinable(b, p - 1) && joinable(b, p));
        }
        assert(joinable(b, st));
        assert(b[st] != 0x20 && b[st] != 0x0A);
        if st > 0 {
            assert(!joinable(b, st - 1));
            assert(!kept(b, st));
        }
    }
}

/// The fast path's last segment starts at the last position it does not
/// keep.
pub proof fn lemma_ascii_back_start_cut(b: Seq<u8>)
    requires
        b.len() > 0,
    ensures
        last_cut(b, ascii_back_start(b)),
{
    let n = b.len() as int;
    if b[n - 1] == 0x20 {
        lemma_space_start_cut(b, n - 1);
    } else if is_core_byte(b[n - 1]) {
        assert(joinable(b, n - 1));
        lemma_core_start_cut(b, n - 1);
    } else if n >= 2 && b[n - 2] == 0x0D && b[n - 1] == 0x0A {
        assert(kept(b, n - 1));
    }
}

proof fn lemma_first_cut_unique(b: Seq<u8>, l: int)
    requires
        b.len() > 0,
        first_cut(b, l),
    ensures
        ascii_fwd_len(b) == l,
{
    let l0 = ascii_fwd_len(b);
    lemma_ascii_fwd_len_cut(b);
    if l0 < l {
        assert(kept(b, l0));
    } else if l0 > l {
        assert(kept(b, l));
    }
}

proof fn lemma_last_cut_unique(b: Seq<u8>, st: int)
    requires
        b.len() > 0,
        last_cut(b, st),
    ensures
        ascii_back_start(b) == st,
{
    let s0 = ascii_back_start(b);
    lemma_ascii_back_start_cut(b);
    if s0 < st {
        assert(kept(b, st));
    } else if s0 > st {
        assert(kept(b, s0));
    }
}

/// Past a position that is not kept, the bytes after it keep what they kept
/// in the whole text.
proof fn lemma_kept_suffix(b: Seq<u8>, l: int)
    requires
        0 < l < b.len(),
        !kept(b, l),
    ensures
        forall|p: int| 1 <= p < b.len() - l ==> #[trigger] kept(b.skip(l), p) == kept(b, l + p),
{
    let c = b.skip(l);
    assert(joinable(c, 0) == joinable(b, l)) by {
        if joinable(b, l) && !is_core_byte(b[l]) {
            assert(is_digit_byte(b[l - 1]) || is_alpha_byte(b[l - 1]));
            assert(joinable(b, l - 1));
        }
    }
    assert forall|p: int| 1 <= p < b.len() - l implies #[trigger] kept(c, p) == kept(b, l + p) by {
        assert(c[p] == b[l + p]);
        assert(c[p - 1] == b[l + p - 1]);
        if p + 1 < c.len() {
            assert(c[p + 1] == b[l + p + 1]);
        }
        assert(joinable(c, p) == joinable(b, l + p));
        if p - 1 > 0 {
            assert(c[p - 2] == b[l + p - 2]);
            assert(joinable(c, p - 1) == joinable(b, l + p - 1));
        }
    }
}

/// Before a position that is not kept, the bytes before it keep what they
/// kept in the whole text.
proof fn lemma_kept_prefix(b: Seq<u8>, m: int)
    requires
        0 < m < b.len(),
        !kept(b, m),
    ensures
        forall|p: int| 1 <= p < m ==> #[trigger] kept(b.take(m), p) == kept(b, p),
{
    let t = b.take(m);
    assert(joinable(t, m - 1) == joinable(b, m - 1)) by {
        if joinable(b, m - 1) && !is_core_byte(b[m - 1]) {
            assert(is_digit_byte(b[m]) || is_alpha_byte(b[m]));
            assert(joinable(b, m));
        }
    }
    assert forall|p: int| 1 <= p < m implies #[trigger] kept(t, p) == kept(b, p) by {
        assert(t[p] == b[p]);
        assert(t[p - 1] == b[p - 1]);
        if p < m - 1 {
            assert(t[p + 1] == b[p + 1]);
            assert(joinable(t, p) == joinable(b, p));
        }
        if p - 1 > 0 {
            assert(t[p - 2] == b[p - 2]);
        }
        assert(joinable(t, p - 1) == joinable(b, p - 1));
    }
}

proof fn lemma_ascii_bytes_len(s: Seq<char>)
    requires
        is_ascii_chars(s),
    ensures
        utf8_len(s) == s.len(),
{
    is_ascii_chars_encode_utf8(s);
}

/// From the front, an ASCII text ends with the segment that iterating it
/// from the back yields first.
proof fn lemma_ascii_forward_snoc(s: Seq<char>, off: int)
    requires
        is_ascii_chars(s),
        s.len() > 0,
    ensures
        ({
            let st = ascii_back_start(ascii_bytes(s));
            bounds_forward(true, s, off) == bounds_forward(true, s.take(st), off).push(
                (off + st, s.skip(st)),
            )
        }),
    decreases s.len(),
{
    let b = ascii_bytes(s);
    let n = s.len() as int;
    let l = ascii_fwd_len(b);
    let st = ascii_back_start(b);
    lemma_ascii_fwd_len_cut(b);
    lemma_ascii_back_start_cut(b);
    lemma_ascii_bytes_len(s.take(l));
    if l == n {
        if st > 0 {
            assert(kept(b, st));
        }
        assert(s.take(l) =~= s);
        assert(s.skip(0) =~= s);
        assert(bounds_forward(true, s.skip(l), off + l) =~= Seq::<(int, Seq<char>)>::empty());
        assert(bounds_forward(true, s.take(0), off) =~= Seq::<(int, Seq<char>)>::empty());
    } else {
        let c = s.skip(l);
        let cb = ascii_bytes(c);
        assert(cb =~= b.skip(l));
        assert(is_ascii_chars(c));
        lemma_kept_suffix(b, l);
        let stc = ascii_back_start(cb);
        lemma_ascii_back_start_cut(cb);
        assert(last_cut(b, l + stc)) by {
            assert forall|p: int| l + stc < p < n implies #[trigger] kept(b, p) by {
                assert(kept(cb, p - l));
            }
            if stc > 0 {
                assert(!kept(cb, stc));
            }
        }
        lemma_last_cut_unique(b, l + stc);
        assert(st == l + stc);
        lemma_ascii_forward_snoc(c, off + l);
        let t = s.take(st);
        let tb = ascii_bytes(t);
        assert(tb =~= b.take(st));
        assert(is_ascii_chars(t));
        lemma_kept_prefix(b, st);
        assert(first_cut(tb, l)) by {
            assert forall|p: int| 1 <= p < l implies #[trigger] kept(tb, p) by {
                assert(kept(b, p));
            }
            if l < st {
                assert(!kept(b, l));
            }
        }
        lemma_first_cut_unique(tb, l);
        assert(t.take(l) =~= s.take(l));
        assert(t.skip(l) =~= c.take(stc));
        assert(c.skip(stc) =~= s.skip(st));
        lemma_ascii_bytes_len(t.take(l));
        let head = seq![(off, s.take(l))];
        let x = bounds_forward(true, c.take(stc), off + l);
        assert(bounds_forward(true, s, off) == head + bounds_forward(true, c, off + l));
        assert(bounds_forward(true, t, off) == head + x);
        assert(head + x.push((off + st, s.skip(st))) =~= (head + x).push((off + st, s.skip(st))));
    }
}

/// Iterated from the back, the fast path yields the segments, with their
/// offsets, that it yields iterated from the front, in reverse order.
pub proof fn law_ascii_both_directions(s: Seq<char>, off: int)
    requires
        is_ascii_chars(s),
    ensures
        bounds_backward(true, s, off) == bounds_forward(true, s, off).reverse(),
    decreases s.len(),
{
    if s.len() == 0 {
        assert(bounds_backward(true, s, off) =~= Seq::<(int, Seq<char>)>::empty());
        assert(bounds_forward(true, s, off) =~= Seq::<(int, Seq<char>)>::empty());
    } else {
        let b = ascii_bytes(s);
        let st = ascii_back_start(b);
        crate::ascii_rules::lemma_ascii_back_start_bounds(b);
        lemma_ascii_forward_snoc(s, off);
        let t = s.take(st);
        assert(is_ascii_chars(t));
        lemma_ascii_bytes_len(t);
        law_ascii_both_directions(t, off);
        let last = (off + st, s.skip(st));
        let f = bounds_forward(true, t, off);
        assert(bounds_backward(true, s, off) == seq![last] + bounds_backward(true, t, off));
        assert(f.push(last).reverse() =~= seq![last] + f.reverse());
    }
}

/// Iterated from the back, the general rules yield on ASCII text the
/// segments, with their offsets, that they yield iterated from the front, in
/// reverse order.
pub proof fn law_ascii_general_both_directions(s: Seq<char>, off: int)
    requires
        is_ascii_chars(s),
    ensures
        bounds_backward(false, s, off) == bounds_forward(false, s, off).reverse(),
{
    law_ascii_both_directions(s, off);
    crate::laws::law_ascii_bounds_forward(s, off);
    crate::laws::law_ascii_bounds_backward(s, off);
}

proof fn lemma_word_segments_push(ascii: bool, u: Seq<(int, Seq<char>)>, x: (int, Seq<char>))
    ensures
        word_segments(ascii, u.push(x)) == word_segments(ascii, u) + if is_word(ascii, x.1) {
            seq![x.1]
        } else {
            Seq::<Seq<char>>::empty()
        },
    decreases u.len(),
{
    if u.len() == 0 {
        assert(u.push(x).drop_first() =~= Seq::<(int, Seq<char>)>::empty());
        assert(u.push(x)[0] == x);
        assert(word_segments(ascii, u) =~= Seq::<Seq<char>>::empty());
        assert(word_segments(ascii, Seq::<(int, Seq<char>)>::empty()) =~= Seq::<Seq<char>>::empty());
        assert(word_segments(ascii, u.push(x)) =~= word_segments(ascii, u) + if is_word(
            ascii,
            x.1,
        ) {
            seq![x.1]
        } else {
            Seq::<Seq<char>>::empty()
        });
    } else {
        let w = u.push(x);
        assert(w.drop_first() =~= u.drop_first().push(x));
        assert(w[0] == u[0]);
        lemma_word_segments_push(ascii, u.drop_first(), x);
        let c0 = if is_word(ascii, u[0].1) {
            seq![u[0].1]
        } else {
            Seq::<Seq<char>>::empty()
        };
        let cx = if is_word(ascii, x.1) {
            seq![x.1]
        } else {
            Seq::<Seq<char>>::empty()
        };
        assert(word_segments(ascii, w) =~= c0 + word_segments(ascii, w.drop_first()));
        assert(word_segments(ascii, u) =~= c0 + word_segments(ascii, u.drop_first()));
        assert(c0 + (word_segments(ascii, u.drop_first()) + cx) =~= (c0 + word_segments(
            ascii,
            u.drop_first(),
        )) + cx);
    }
}

proof fn lemma_word_segments_reverse(ascii: bool, v: Seq<(int, Seq<char>)>)
    ensures
        word_segments(ascii, v.reverse()) == word_segments(ascii, v).reverse(),
    decreases v.len(),
{
    if v.len() == 0 {
        assert(v.reverse() =~= v);
        assert(word_segments(ascii, v) =~= Seq::<Seq<char>>::empty());
        assert(word_segments(ascii, v).reverse() =~= Seq::<Seq<char>>::empty());
    } else {
        let u = v.drop_last();
        let x = v.last();
        assert(v =~= u.push(x));
        lemma_word_segments_reverse(ascii, u);
        lemma_word_segments_push(ascii, u, x);
        let r = v.reverse();
        assert(r[0] == x);
        assert(r.drop_first() =~= u.reverse());
        let cond = if is_word(ascii, x.1) {
            seq![x.1]
        } else {
            Seq::<Seq<char>>::empty()
        };
        assert(word_segments(ascii, r) =~= cond + word_segments(ascii, u).reverse());
        assert((word_segments(ascii, u) + cond).reverse() =~= cond + word_segments(ascii, u).reverse());
    }
}

/// On ASCII text, the words from the back are the words from the front in
/// reverse order, on either path.
pub proof fn law_ascii_words_both_directions(ascii: bool, s: Seq<char>)
    requires
        is_ascii_chars(s),
    ensures
        words_backward(ascii, s) == words_forward(ascii, s).reverse(),
{
    if ascii {
        law_ascii_both_directions(s, 0);
    } else {
        law_ascii_general_both_directions(s, 0);
    }
    law_words_forward_filter_bounds(ascii, s, 0);
    law_words_backward_filter_bounds(ascii, s, 0);
    lemma_word_segments_reverse(ascii, bounds_forward(ascii, s, 0));
}

} // verus!
