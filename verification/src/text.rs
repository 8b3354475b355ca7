//! Byte and character views of string slices: the UTF-8 width of a
//! character sequence, and splitting a `&str` after a number of characters.
use vstd::prelude::*;
use vstd::utf8::*;
use vstd::string::*;

verus! {

broadcast use vstd::utf8::group_utf8_lib;

/// The number of bytes that the UTF-8 encoding of `s` takes.
pub open spec fn utf8_len(s: Seq<char>) -> nat {
    encode_utf8(s).len()
}

/// The number of bytes that the UTF-8 encoding of `c` takes.
pub fn char_utf8_len(c: char) -> (r: usize)
    ensures
        r == encode_scalar(c as u32).len(),
        1 <= r <= 4,
{
    let v = c as u32;
    proof {
        char_is_scalar(c);
    }
    if v <= 0x7F {
        1
    } else if v <= 0x7FF {
        2
    } else if v <= 0xFFFF {
        3
    } else {
        4
    }
}

/// Encoding a concatenation encodes each part in turn.
pub proof fn lemma_encode_utf8_concat(a: Seq<char>, b: Seq<char>)
    ensures
        encode_utf8(a + b) == encode_utf8(a) + encode_utf8(b),
    decreases a.len(),
{
    if a.len() == 0 {
        assert(a + b =~= b);
        assert(encode_utf8(a) =~= Seq::<u8>::empty());
        assert(encode_utf8(a) + encode_utf8(b) =~= encode_utf8(b));
    } else {
        assert((a + b).drop_first() =~= a.drop_first() + b);
        lemma_encode_utf8_concat(a.drop_first(), b);
        assert(encode_utf8(a + b) =~= encode_scalar(a[0] as u32) + (encode_utf8(a.drop_first())
            + encode_utf8(b)));
    }
}

/// Appending one character adds its width to the byte length.
pub proof fn lemma_utf8_len_push(a: Seq<char>, c: char)
    ensures
        utf8_len(a.push(c)) == utf8_len(a) + encode_scalar(c as u32).len(),
{
    lemma_encode_utf8_concat(a, seq![c]);
    assert(a.push(c) =~= a + seq![c]);
    assert(seq![c].drop_first() =~= Seq::<char>::empty());
    assert(encode_utf8(seq![c]) =~= encode_scalar(c as u32) + encode_utf8(Seq::<char>::empty()));
}

/// The byte length of a concatenation is the sum of the byte lengths.
pub proof fn lemma_utf8_len_concat(a: Seq<char>, b: Seq<char>)
    ensures
        utf8_len(a + b) == utf8_len(a) + utf8_len(b),
{
    lemma_encode_utf8_concat(a, b);
}

/// The end of the encoding of a prefix is a character boundary of the whole encoding.
pub proof fn lemma_prefix_end_is_char_boundary(a: Seq<char>, b: Seq<char>)
    ensures
        is_char_boundary(encode_utf8(a + b), encode_utf8(a).len() as int),
    decreases a.len(),
{
    let bytes = encode_utf8(a + b);
    if a.len() == 0 {
    } else {
        let ab = a + b;
        encode_utf8_first_scalar(ab);
        assert(ab.drop_first() =~= a.drop_first() + b);
        assert(pop_first_scalar(bytes) =~= encode_utf8(ab.drop_first()));
        lemma_prefix_end_is_char_boundary(a.drop_first(), b);
        lemma_encode_utf8_concat(a, b);
        assert(encode_utf8(a) == encode_scalar(a[0] as u32) + encode_utf8(a.drop_first()));
    }
}

/// Splits `s` after its first `k` characters, whose encoding takes `nbytes` bytes.
pub fn split_after_chars<'a>(s: &'a str, Ghost(k): Ghost<int>, nbytes: usize) -> (r: (&'a str, &'a str))
    requires
        0 <= k <= s@.len(),
        nbytes == utf8_len(s@.take(k)),
    ensures
        r.0@ == s@.take(k),
        r.1@ == s@.skip(k),
{
    proof {
        let a = s@.take(k);
        let b = s@.skip(k);
        assert(s@ =~= a + b);
        lemma_prefix_end_is_char_boundary(a, b);
        lemma_encode_utf8_concat(a, b);
        assert(s.spec_bytes() == encode_utf8(a) + encode_utf8(b));
        assert(encode_utf8(a) =~= s.spec_bytes().subrange(0, nbytes as int));
        assert(encode_utf8(b) =~= s.spec_bytes().subrange(nbytes as int, s.spec_bytes().len() as int));
    }
    let r = s.split_at(nbytes);
    proof {
        assert(r.0.spec_bytes() == encode_utf8(s@.take(k)));
        assert(decode_utf8(encode_utf8(r.0@)) == r.0@);
        assert(decode_utf8(encode_utf8(s@.take(k))) == s@.take(k));
        assert(decode_utf8(encode_utf8(r.1@)) == r.1@);
        assert(decode_utf8(encode_utf8(s@.skip(k))) == s@.skip(k));
    }
    r
}

/// The characters of `s`, in order.
pub fn str_chars(s: &str) -> (v: Vec<char>)
    ensures
        v@ == s@,
{
    broadcast use vstd::string::group_string_axioms;

    let mut v: Vec<char> = Vec::new();
    for c in iter: s.chars()
        invariant
            v@ == iter.seq().take(iter.index() as int),
    {
        v.push(c);
    }
    assert(v@ == s@);
    v
}

/// The number of bytes that the UTF-8 encoding of `s` takes, read off the
/// string.
pub fn str_utf8_len(s: &str) -> (n: usize)
    ensures
        n == utf8_len(s@),
{
    s.as_bytes().len()
}

/// The byte length of the UTF-8 encoding of `chars[from..to]`.
pub fn chars_utf8_len(chars: &Vec<char>, from: usize, to: usize) -> (n: usize)
    requires
        from <= to <= chars@.len(),
        utf8_len(chars@.subrange(from as int, to as int)) <= usize::MAX,
    ensures
        n == utf8_len(chars@.subrange(from as int, to as int)),
{
    let mut n: usize = 0;
    let mut j = from;
    proof {
        assert(chars@.subrange(from as int, from as int) =~= Seq::<char>::empty());
        assert(encode_utf8(Seq::<char>::empty()) =~= Seq::<u8>::empty());
    }
    while j < to
        invariant
            from <= j <= to <= chars@.len(),
            n == utf8_len(chars@.subrange(from as int, j as int)),
            utf8_len(chars@.subrange(from as int, to as int)) <= usize::MAX,
        decreases to - j,
    {
        let w = char_utf8_len(chars[j]);
        proof {
            let a = chars@.subrange(from as int, j as int);
            assert(chars@.subrange(from as int, j + 1) =~= a.push(chars@[j as int]));
            lemma_utf8_len_push(a, chars@[j as int]);
            let whole = chars@.subrange(from as int, to as int);
            assert(whole =~= chars@.subrange(from as int, j + 1) + chars@.subrange(j + 1, to as int));
            lemma_utf8_len_concat(chars@.subrange(from as int, j + 1), chars@.subrange(j + 1, to as int));
        }
        n = n + w;
        j = j + 1;
    }
    n
}

/// A prefix and the rest of a sequence split its byte length.
pub proof fn lemma_utf8_len_split(s: Seq<char>, k: int)
    requires
        0 <= k <= s.len(),
    ensures
        utf8_len(s) == utf8_len(s.take(k)) + utf8_len(s.skip(k)),
{
    assert(s =~= s.take(k) + s.skip(k));
    lemma_utf8_len_concat(s.take(k), s.skip(k));
}

/// Every character takes at least one byte.
pub proof fn lemma_utf8_len_at_least_chars(s: Seq<char>)
    ensures
        utf8_len(s) >= s.len(),
    decreases s.len(),
{
    if s.len() > 0 {
        lemma_utf8_len_at_least_chars(s.drop_first());
        assert(encode_utf8(s) == encode_scalar(s[0] as u32) + encode_utf8(s.drop_first()));
        char_is_scalar(s[0]);
    } else {
        assert(encode_utf8(s) =~= Seq::<u8>::empty());
    }
}

} // verus!
