use unicode_segmentation::tables::{word_category, WordCat};
use unicode_segmentation::word::{
    has_alphanumeric, has_ascii_alphanumeric, new_ascii_word_bound_indices, new_unicode_word_indices, new_unicode_words,
    new_unicode_words_ascii, new_unicode_words_general, new_word_bound_indices, new_word_bounds,
    AsciiWordBoundIter, UWordBoundIndices, UWordBounds, UnicodeWordIndices, UnicodeWords,
};

fn bounds<'a>(mut it: UWordBounds<'a>) -> Vec<&'a str> {
    let mut v = Vec::new();
    while let Some(w) = it.next() {
        v.push(w);
    }
    v
}

fn bounds_rev<'a>(mut it: UWordBounds<'a>) -> Vec<&'a str> {
    let mut v = Vec::new();
    while let Some(w) = it.next_back() {
        v.push(w);
    }
    v
}

fn bound_indices<'a>(mut it: UWordBoundIndices<'a>) -> Vec<(usize, &'a str)> {
    let mut v = Vec::new();
    while let Some(w) = it.next() {
        v.push(w);
    }
    v
}

fn bound_indices_rev<'a>(mut it: UWordBoundIndices<'a>) -> Vec<(usize, &'a str)> {
    let mut v = Vec::new();
    while let Some(w) = it.next_back() {
        v.push(w);
    }
    v
}

fn ascii_indices<'a>(mut it: AsciiWordBoundIter<'a>) -> Vec<(usize, &'a str)> {
    let mut v = Vec::new();
    while let Some(w) = it.next() {
        v.push(w);
    }
    v
}

fn ascii_indices_rev<'a>(mut it: AsciiWordBoundIter<'a>) -> Vec<(usize, &'a str)> {
    let mut v = Vec::new();
    while let Some(w) = it.next_back() {
        v.push(w);
    }
    v
}

fn words<'a>(mut it: UnicodeWords<'a>) -> Vec<&'a str> {
    let mut v = Vec::new();
    while let Some(w) = it.next() {
        v.push(w);
    }
    v
}

fn words_rev<'a>(mut it: UnicodeWords<'a>) -> Vec<&'a str> {
    let mut v = Vec::new();
    while let Some(w) = it.next_back() {
        v.push(w);
    }
    v
}

fn word_indices<'a>(mut it: UnicodeWordIndices<'a>) -> Vec<(usize, &'a str)> {
    let mut v = Vec::new();
    while let Some(w) = it.next() {
        v.push(w);
    }
    v
}

fn word_indices_rev<'a>(mut it: UnicodeWordIndices<'a>) -> Vec<(usize, &'a str)> {
    let mut v = Vec::new();
    while let Some(w) = it.next_back() {
        v.push(w);
    }
    v
}

#[test]
fn test_syriac_abbr_mark() {
    let (_, _, cat) = word_category('\u{70f}');
    assert_eq!(cat, WordCat::WC_ALetter);
}

#[test]
fn test_end_of_ayah_cat() {
    let (_, _, cat) = word_category('\u{6dd}');
    assert_eq!(cat, WordCat::WC_Numeric);
}

#[test]
fn test_ascii_word_bound_indices_various_cases() {
    let s = "Hello, world!";
    let words: Vec<(usize, &str)> = ascii_indices(new_ascii_word_bound_indices(s));
    let expected = vec![
        (0, "Hello"), // simple letters
        (5, ","),
        (6, " "),     // space after comma
        (7, "world"), // skip comma+space, stop at '!'
        (12, "!"),    // punctuation at the end
    ];
    assert_eq!(words, expected);
}

#[test]
fn test_ascii_word_indices_various_cases() {
    let s = "Hello, world! can't e.g. var1 123,456 foo_bar example.com 127.0.0.1:9090";
    let words: Vec<&str> = words(new_unicode_words_ascii(s));
    let expected = vec![
        ("Hello"), // simple letters
        ("world"), // skip comma+space, stop at '!'
        ("can't"), // apostrophe joins letters
        ("e.g"),
        ("var1"),
        ("123,456"), // digits+comma+digits
        ("foo_bar"),
        ("example.com"),
        ("127.0.0.1"),
        ("9090"), // port number
    ];
    assert_eq!(words, expected);
}

/// Every string of up to four characters over an alphabet that exercises
/// each ASCII rule: the fast path must equal the general path, forwards and
/// backwards.
#[test]
fn ascii_fast_path_matches_general_path() {
    let alphabet = [
        'a', 'Z', '1', '9', ' ', '.', ',', ';', '\'', ':', '_', '"', '\r', '\n', '\t', '!', '\u{b}',
    ];
    let mut inputs: Vec<String> = vec![String::new()];
    let mut frontier: Vec<String> = vec![String::new()];
    for _ in 0..4 {
        let mut next = Vec::new();
        for p in &frontier {
            for c in alphabet.iter() {
                let mut q = p.clone();
                q.push(*c);
                next.push(q);
            }
        }
        inputs.extend(next.iter().cloned());
        frontier = next;
    }
    for s in &inputs {
        let fast = ascii_indices(new_ascii_word_bound_indices(s));
        let uni = bound_indices(new_word_bound_indices(s));
        assert_eq!(fast, uni, "forward on {:?}", s);
        let fast_rev = ascii_indices_rev(new_ascii_word_bound_indices(s));
        let uni_rev = bound_indices_rev(new_word_bound_indices(s));
        assert_eq!(fast_rev, uni_rev, "backward on {:?}", s);
    }
}

#[test]
fn ascii_fast_path_matches_on_sentences() {
    let cases = [
        "Hello, world! can't e.g. var1 123,456 foo_bar example.com 127.0.0.1:9090",
        "a.b.c 1.2.3 a:b 1:2 a'b 1'2 a;b 1;2 x.\r\ny..z  \n\n '' \"q\"",
        "  leading and trailing  ",
        "3.14 1,000 e.g. http://x.org",
    ];
    for s in cases.iter() {
        assert_eq!(
            ascii_indices(new_ascii_word_bound_indices(s)),
            bound_indices(new_word_bound_indices(s))
        );
        assert_eq!(
            ascii_indices_rev(new_ascii_word_bound_indices(s)),
            bound_indices_rev(new_word_bound_indices(s))
        );
    }
}

#[test]
fn word_bounds_as_str() {
    let mut iter = new_word_bounds("Hello world");
    assert_eq!(iter.as_str(), "Hello world");
    iter.next();
    assert_eq!(iter.as_str(), " world");
    iter.next();
    assert_eq!(iter.as_str(), "world");
}

#[test]
fn word_bound_indices_as_str() {
    let mut iter = new_word_bound_indices("Hello world");
    assert_eq!(iter.as_str(), "Hello world");
    iter.next();
    assert_eq!(iter.as_str(), " world");
    iter.next();
    assert_eq!(iter.as_str(), "world");
}

#[test]
fn word_bounds_basic() {
    assert_eq!(
        bounds(new_word_bounds("The quick (\"brown\") fox can't jump 32.3 feet, right?")),
        vec![
            "The", " ", "quick", " ", "(", "\"", "brown", "\"", ")", " ", "fox", " ", "can't",
            " ", "jump", " ", "32.3", " ", "feet", ",", " ", "right", "?"
        ]
    );
    assert_eq!(bounds(new_word_bounds("")), Vec::<&str>::new());
    assert_eq!(bounds_rev(new_word_bounds("")), Vec::<&str>::new());
}

#[test]
fn word_bounds_non_ascii() {
    // Latin-1 letters and a combining accent stay inside the word (WB4, WB5).
    let s = "h\u{e9}llo w\u{f6}rld e\u{301}t\u{e9}";
    assert_eq!(
        bounds(new_word_bounds(s)),
        vec!["h\u{e9}llo", " ", "w\u{f6}rld", " ", "e\u{301}t\u{e9}"]
    );
    assert_eq!(
        bound_indices(new_word_bound_indices(s)),
        vec![(0, "h\u{e9}llo"), (6, " "), (7, "w\u{f6}rld"), (13, " "), (14, "e\u{301}t\u{e9}")]
    );
    assert_eq!(
        bound_indices_rev(new_word_bound_indices(s)),
        vec![(14, "e\u{301}t\u{e9}"), (13, " "), (7, "w\u{f6}rld"), (6, " "), (0, "h\u{e9}llo")]
    );
}

#[test]
fn word_bounds_regional_indicators() {
    // Flags pair up regional indicators from the start of their run (WB13c).
    let s = "\u{1F1E6}\u{1F1E7}\u{1F1E8}";
    assert_eq!(bounds(new_word_bounds(s)), vec!["\u{1F1E6}\u{1F1E7}", "\u{1F1E8}"]);
    assert_eq!(bounds_rev(new_word_bounds(s)), vec!["\u{1F1E8}", "\u{1F1E6}\u{1F1E7}"]);
    let s4 = "\u{1F1E6}\u{1F1E7}\u{1F1E8}\u{1F1E9}";
    assert_eq!(
        bounds_rev(new_word_bounds(s4)),
        vec!["\u{1F1E8}\u{1F1E9}", "\u{1F1E6}\u{1F1E7}"]
    );
}

#[test]
fn word_bounds_emoji_zwj_sequence() {
    // An emoji after a ZWJ joins the sequence (WB3c).
    let s = "\u{1F468}\u{200D}\u{1F469} x";
    assert_eq!(bounds(new_word_bounds(s)), vec!["\u{1F468}\u{200D}\u{1F469}", " ", "x"]);
    assert_eq!(bounds_rev(new_word_bounds(s)), vec!["x", " ", "\u{1F468}\u{200D}\u{1F469}"]);
}

#[test]
fn word_bounds_crlf_and_newlines() {
    assert_eq!(bounds(new_word_bounds("a\r\nb")), vec!["a", "\r\n", "b"]);
    assert_eq!(bounds_rev(new_word_bounds("a\r\nb")), vec!["b", "\r\n", "a"]);
    assert_eq!(bounds(new_word_bounds("\n\n\r")), vec!["\n", "\n", "\r"]);
    assert_eq!(bounds(new_word_bounds("a\u{2028}b")), vec!["a", "\u{2028}", "b"]);
}

#[test]
fn word_bounds_hebrew_and_katakana() {
    // A Hebrew letter with a single quote after it (WB7a), Katakana runs (WB13).
    let hebrew = "\u{5d0}'\u{5d1}";
    assert_eq!(bounds(new_word_bounds(hebrew)), vec![hebrew]);
    let katakana = "\u{30a2}\u{30a4}\u{30a6} x";
    assert_eq!(bounds(new_word_bounds(katakana)), vec!["\u{30a2}\u{30a4}\u{30a6}", " ", "x"]);
}

#[test]
fn word_bounds_format_extend_at_start() {
    // A run of Format/Extend characters after a non-letter stays with it (WB4).
    let s = "!\u{301}\u{301}a";
    assert_eq!(bounds(new_word_bounds(s)), vec!["!\u{301}\u{301}", "a"]);
    assert_eq!(bounds_rev(new_word_bounds(s)), vec!["a", "!\u{301}\u{301}"]);
}

#[test]
fn word_bounds_mixed_directions() {
    let mut it = new_word_bounds("one two three");
    assert_eq!(it.next(), Some("one"));
    assert_eq!(it.next_back(), Some("three"));
    assert_eq!(it.next(), Some(" "));
    assert_eq!(it.next_back(), Some(" "));
    assert_eq!(it.as_str(), "two");
    assert_eq!(it.next_back(), Some("two"));
    assert_eq!(it.next(), None);
    assert_eq!(it.next_back(), None);
}

#[test]
fn word_bounds_size_hint() {
    let mut it = new_word_bounds("ab c");
    assert_eq!(it.size_hint(), (1, Some(4)));
    it.next();
    it.next();
    it.next();
    assert_eq!(it.size_hint(), (0, Some(0)));
    let idx = new_word_bound_indices("h\u{e9}");
    assert_eq!(idx.size_hint(), (1, Some(3)));
}

#[test]
fn unicode_words_filter_segments() {
    let s = "Hello, w\u{f6}rld! 42 -- ok";
    assert_eq!(words(new_unicode_words(s)), vec!["Hello", "w\u{f6}rld", "42", "ok"]);
    assert_eq!(words_rev(new_unicode_words(s)), vec!["ok", "42", "w\u{f6}rld", "Hello"]);
    assert_eq!(words(new_unicode_words_general("a, b")), vec!["a", "b"]);
    assert_eq!(words(new_unicode_words("")), Vec::<&str>::new());
    assert_eq!(words(new_unicode_words(" ,.;")), Vec::<&str>::new());
}

#[test]
fn unicode_word_indices_offsets() {
    let s = "Hello, w\u{f6}rld!";
    assert_eq!(word_indices(new_unicode_word_indices(s)), vec![(0, "Hello"), (7, "w\u{f6}rld")]);
    assert_eq!(word_indices_rev(new_unicode_word_indices(s)), vec![(7, "w\u{f6}rld"), (0, "Hello")]);
    let a = "can't stop, 3.5";
    assert_eq!(word_indices(new_unicode_word_indices(a)), vec![(0, "can't"), (6, "stop"), (12, "3.5")]);
    assert_eq!(word_indices_rev(new_unicode_word_indices(a)), vec![(12, "3.5"), (6, "stop"), (0, "can't")]);
}

#[test]
fn unicode_words_size_hint() {
    assert_eq!(new_unicode_words("abc").size_hint(), (0, None));
    assert_eq!(new_unicode_words("\u{e9}t\u{e9}").size_hint(), (0, Some(5)));
    assert_eq!(new_unicode_word_indices("abc").size_hint(), (0, None));
    assert_eq!(new_unicode_word_indices("\u{e9}").size_hint(), (0, Some(2)));
}

#[test]
fn word_category_ranges() {
    assert_eq!(word_category('a'), (0x61, 0x7A, WordCat::WC_ALetter));
    assert_eq!(word_category('!'), (0x21, 0x21, WordCat::WC_Any));
    assert_eq!(word_category('\u{0}'), (0x0, 0x9, WordCat::WC_Any));
    assert_eq!(word_category('\u{10FFFF}'), (0xE01F0, 0x10FFFF, WordCat::WC_Any));
    assert_eq!(word_category('\u{200D}').2, WordCat::WC_ZWJ);
}

#[test]
fn newlines_stand_alone() {
    // Every line separator is a segment of its own; CR LF stays one segment.
    let s = "a\r\nb\nc\u{85}d\r\re\u{2029}\u{2028}";
    let fwd = vec!["a", "\r\n", "b", "\n", "c", "\u{85}", "d", "\r", "\r", "e", "\u{2029}", "\u{2028}"];
    assert_eq!(bounds(new_word_bounds(s)), fwd);
    let mut rev = fwd.clone();
    rev.reverse();
    assert_eq!(bounds_rev(new_word_bounds(s)), rev);
    // A separator after letters, digits or a Format character still breaks.
    assert_eq!(bounds(new_word_bounds("ab\u{301}\n12")), vec!["ab\u{301}", "\n", "12"]);
    assert_eq!(bounds_rev(new_word_bounds("ab\u{301}\n12")), vec!["12", "\n", "ab\u{301}"]);
}

#[test]
fn joined_characters_stay_together() {
    // Letters, digits, connectors and Katakana after a connector stay in one
    // segment; a run of horizontal spaces too.
    let s = "ab12_\u{30AB}\u{30CA}  \u{3000}x";
    let fwd = vec!["ab12_\u{30AB}\u{30CA}", "  \u{3000}", "x"];
    assert_eq!(bounds(new_word_bounds(s)), fwd);
    assert_eq!(bounds_rev(new_word_bounds(s)), vec!["x", "  \u{3000}", "ab12_\u{30AB}\u{30CA}"]);
    // Katakana does not join letters without a connector.
    assert_eq!(bounds(new_word_bounds("a\u{30AB}")), vec!["a", "\u{30AB}"]);
    assert_eq!(bounds_rev(new_word_bounds("a\u{30AB}")), vec!["\u{30AB}", "a"]);
}

#[test]
fn segments_concatenate_to_the_text() {
    let texts = [
        "",
        "The quick (\"brown\") fox can't jump 32.3 feet, right?",
        "h\u{e9}llo \u{1F1E6}\u{1F1E7}\u{1F1E8} \u{1F468}\u{200D}\u{1F469}\r\n\u{5d0}\"\u{5d1}",
        "!\u{301}\u{301}a \u{200D}\u{200D} 1,000.5",
    ];
    for s in texts.iter() {
        let fwd = bounds(new_word_bounds(s));
        assert!(fwd.iter().all(|w| !w.is_empty()));
        assert_eq!(fwd.concat(), *s);
        let mut back = bounds_rev(new_word_bounds(s));
        assert!(back.iter().all(|w| !w.is_empty()));
        back.reverse();
        assert_eq!(back.concat(), *s);
        let idx = bound_indices(new_word_bound_indices(s));
        for (off, w) in idx.iter() {
            assert_eq!(&s[*off..*off + w.len()], *w);
        }
    }
}

#[test]
fn size_hint_bounds_the_segment_count() {
    for s in ["a", "ab cd", "h\u{e9}llo w\u{f6}rld", "\r\n\r\n", "\u{1F1E6}\u{1F1E7}"].iter() {
        let it = new_word_bounds(s);
        let (lo, hi) = it.size_hint();
        let n = bounds(new_word_bounds(s)).len();
        assert!(lo <= n);
        assert!(n <= hi.unwrap());
        assert_eq!(hi, Some(s.len()));
    }
}

#[test]
fn alphanumeric_checks() {
    assert!(has_alphanumeric("..\u{e9}.."));
    assert!(has_alphanumeric("\u{663}"));
    assert!(has_alphanumeric("x"));
    assert!(!has_alphanumeric(" ,\u{2014}!"));
    assert!(!has_alphanumeric(""));
    assert!(has_ascii_alphanumeric("--7"));
    assert!(!has_ascii_alphanumeric("\u{e9}\u{663}"));
    assert!(!has_ascii_alphanumeric(""));
}

#[test]
fn middle_characters_between_letters_or_digits() {
    for w in ["can't", "a:b", "e.g", "3.5", "1,000", "1'000", "\u{5d0}\"\u{5d1}", "\u{5d0}'"].iter() {
        assert_eq!(bounds(new_word_bounds(w)), vec![*w]);
        assert_eq!(bounds_rev(new_word_bounds(w)), vec![*w]);
    }
    assert_eq!(bounds(new_word_bounds("a:")), vec!["a", ":"]);
    assert_eq!(bounds(new_word_bounds("a:1")), vec!["a", ":", "1"]);
    assert_eq!(bounds_rev(new_word_bounds("a:1")), vec!["1", ":", "a"]);
    assert_eq!(bounds(new_word_bounds("1.a")), vec!["1", ".", "a"]);
    assert_eq!(bounds(new_word_bounds("a\"b")), vec!["a", "\"", "b"]);
}

#[test]
fn format_and_extend_stay_with_what_precedes() {
    let s = "a\u{301}\u{200D}b \u{200B}x\u{301}";
    assert_eq!(bounds(new_word_bounds(s)), vec!["a\u{301}\u{200D}b", " ", "\u{200B}", "x\u{301}"]);
    assert_eq!(bounds_rev(new_word_bounds(s)), vec!["x\u{301}", "\u{200B}", " ", "a\u{301}\u{200D}b"]);
    // After a line separator a combining mark starts a segment of its own.
    assert_eq!(bounds(new_word_bounds("\n\u{301}")), vec!["\n", "\u{301}"]);
    assert_eq!(bounds_rev(new_word_bounds("\n\u{301}")), vec!["\u{301}", "\n"]);
}

#[test]
fn zwj_joins_a_following_pictograph() {
    let s = "!\u{200D}\u{1F600}";
    assert_eq!(bounds(new_word_bounds(s)), vec![s]);
    assert_eq!(bounds_rev(new_word_bounds(s)), vec![s]);
    let t = "\u{1F600}\u{200D}\u{1F600}\u{1F600}";
    assert_eq!(bounds(new_word_bounds(t)), vec!["\u{1F600}\u{200D}\u{1F600}", "\u{1F600}"]);
    assert_eq!(bounds_rev(new_word_bounds(t)), vec!["\u{1F600}", "\u{1F600}\u{200D}\u{1F600}"]);
}

#[test]
fn regional_indicators_pair_from_the_start_of_their_run() {
    let s = "x\u{1F1E6}\u{1F1E7}\u{1F1E8}\u{1F1E9}\u{1F1EA}";
    let fwd = vec!["x", "\u{1F1E6}\u{1F1E7}", "\u{1F1E8}\u{1F1E9}", "\u{1F1EA}"];
    assert_eq!(bounds(new_word_bounds(s)), fwd);
    let mut rev = fwd.clone();
    rev.reverse();
    assert_eq!(bounds_rev(new_word_bounds(s)), rev);
    let e = "\u{1F1E6}\u{1F1E7}\u{301}\u{1F1E8}";
    assert_eq!(bounds(new_word_bounds(e)), vec!["\u{1F1E6}\u{1F1E7}\u{301}", "\u{1F1E8}"]);
    assert_eq!(bounds_rev(new_word_bounds(e)), vec!["\u{1F1E8}", "\u{1F1E6}\u{1F1E7}\u{301}"]);
}

#[test]
fn cloned_iterators_continue_independently() {
    let mut it = new_word_bounds("one two");
    assert_eq!(it.next(), Some("one"));
    let mut copy = it.clone();
    assert_eq!(it.next(), Some(" "));
    assert_eq!(copy.next_back(), Some("two"));
    assert_eq!(copy.next(), Some(" "));
    assert_eq!(it.as_str(), "two");
    let mut idx = new_word_bound_indices("a b");
    idx.next();
    let mut idx2 = idx.clone();
    assert_eq!(idx.next(), Some((1, " ")));
    assert_eq!(idx2.next_back(), Some((2, "b")));
}

#[test]
fn words_are_the_bounds_that_hold_alphanumerics() {
    let texts = [
        "Hello, world! can't e.g. var1 123,456 foo_bar",
        "h\u{e9}llo \u{2014} \u{663}\u{664} \u{1F600} \u{30AB}\u{30CA}!",
        "",
        " ,.;",
    ];
    for s in texts.iter() {
        let filtered: Vec<&str> =
            bounds(new_word_bounds(s)).into_iter().filter(|w| has_alphanumeric(w)).collect();
        assert_eq!(words(new_unicode_words_general(s)), filtered);
        let mut filtered_rev = filtered.clone();
        filtered_rev.reverse();
        assert_eq!(words_rev(new_unicode_words_general(s)), filtered_rev);
        assert_eq!(words(new_unicode_words(s)), filtered);
    }
}

#[test]
fn other_characters_stand_alone() {
    assert_eq!(bounds(new_word_bounds("!?.,")), vec!["!", "?", ".", ","]);
    assert_eq!(bounds(new_word_bounds("\u{1F600}a")), vec!["\u{1F600}", "a"]);
    assert_eq!(bounds(new_word_bounds("'a")), vec!["'", "a"]);
    assert_eq!(bounds(new_word_bounds("\u{301}a")), vec!["\u{301}", "a"]);
    assert_eq!(bounds_rev(new_word_bounds("!?")), vec!["?", "!"]);
    assert_eq!(bounds_rev(new_word_bounds("a:")), vec![":", "a"]);
    assert_eq!(bounds_rev(new_word_bounds("x\"")), vec!["\"", "x"]);
}

#[test]
fn hebrew_letter_keeps_a_following_quote() {
    assert_eq!(bounds(new_word_bounds("\u{5d0}'1")), vec!["\u{5d0}'", "1"]);
    assert_eq!(bounds_rev(new_word_bounds("\u{5d0}'1")), vec!["1", "\u{5d0}'"]);
    assert_eq!(bounds(new_word_bounds("\u{5d0}' ")), vec!["\u{5d0}'", " "]);
    assert_eq!(bounds_rev(new_word_bounds("\u{5d0}' ")), vec![" ", "\u{5d0}'"]);
    // A Latin letter does not keep a quote that nothing follows.
    assert_eq!(bounds(new_word_bounds("a' ")), vec!["a", "'", " "]);
}

#[test]
fn letters_marks_and_digits_of_other_scripts() {
    // Bengali and Greek Extended letters stay together (WB5).
    assert_eq!(bounds(new_word_bounds("\u{985}\u{986}")), vec!["\u{985}\u{986}"]);
    assert_eq!(bounds_rev(new_word_bounds("\u{985}\u{986}")), vec!["\u{985}\u{986}"]);
    assert_eq!(bounds(new_word_bounds("\u{1F00}\u{1F01} x")), vec!["\u{1F00}\u{1F01}", " ", "x"]);
    // Arabic marks and a Thai vowel sign stay with what precedes them (WB4).
    assert_eq!(bounds(new_word_bounds("a\u{610}b")), vec!["a\u{610}b"]);
    assert_eq!(bounds(new_word_bounds("\u{E01}\u{E31}")), vec!["\u{E01}\u{E31}"]);
    assert_eq!(bounds(new_word_bounds("a\u{61C}b")), vec!["a\u{61C}b"]);
    // Arabic-Indic and Bengali digits stay together (WB8).
    assert_eq!(bounds(new_word_bounds("\u{661}\u{662} \u{9E6}\u{9E7}")), vec!["\u{661}\u{662}", " ", "\u{9E6}\u{9E7}"]);
    assert_eq!(word_category('\u{985}').2, WordCat::WC_ALetter);
    assert_eq!(word_category('\u{E31}').2, WordCat::WC_Extend);
    assert_eq!(word_category('\u{180E}').2, WordCat::WC_Format);
}

#[test]
fn ascii_words_match_the_general_words() {
    let texts = [
        "Hello, world! can't e.g. var1 123,456 foo_bar example.com 127.0.0.1:9090",
        "__ a_1 ; 3.14 'x' \"y\" \r\n z",
        "",
    ];
    for s in texts.iter() {
        assert_eq!(words(new_unicode_words_ascii(s)), words(new_unicode_words_general(s)));
        assert_eq!(words_rev(new_unicode_words_ascii(s)), words_rev(new_unicode_words_general(s)));
        assert_eq!(has_alphanumeric(s), has_ascii_alphanumeric(s));
    }
}

#[test]
fn ascii_text_gives_the_same_segments_from_both_ends() {
    let texts = ["Hello, world! can't e.g. 3.14 a:b\r\n  __x", "1.a.2 'q' \"", ""];
    for s in texts.iter() {
        let mut fwd = ascii_indices(new_ascii_word_bound_indices(s));
        fwd.reverse();
        assert_eq!(ascii_indices_rev(new_ascii_word_bound_indices(s)), fwd);
        let mut gen = bound_indices(new_word_bound_indices(s));
        gen.reverse();
        assert_eq!(bound_indices_rev(new_word_bound_indices(s)), gen);
        let mut w = words(new_unicode_words(s));
        w.reverse();
        assert_eq!(words_rev(new_unicode_words(s)), w);
    }
}

#[test]
fn the_two_directions_can_differ() {
    // ℹ is both ALetter and Extended_Pictographic: from the front WB5 keeps it
    // with the letter; from the back it is read as a pictograph first.
    assert_eq!(bounds(new_word_bounds("a\u{2139}")), vec!["a\u{2139}"]);
    assert_eq!(bounds_rev(new_word_bounds("a\u{2139}")), vec!["\u{2139}", "a"]);
    // From the front a pictograph after a ZWJ ends the wait for a letter
    // after the colon; from the back the colon starts the emoji sequence.
    let s = "a:\u{200D}\u{1F600}";
    assert_eq!(bounds(new_word_bounds(s)), vec![s]);
    assert_eq!(bounds_rev(new_word_bounds(s)), vec![":\u{200D}\u{1F600}", "a"]);
}

#[test]
fn words_of_non_ascii_text_with_offsets() {
    let s = "na\u{ef}ve 3.5";
    assert_eq!(words(new_unicode_words(s)), vec!["na\u{ef}ve", "3.5"]);
    assert_eq!(word_indices(new_unicode_word_indices(s)), vec![(0, "na\u{ef}ve"), (7, "3.5")]);
    let mut it = new_unicode_word_indices(s);
    assert_eq!(it.next_back(), Some((7, "3.5")));
    let mut b = new_word_bounds("\u{70f}a");
    assert_eq!(b.next(), Some("\u{70f}a"));
    assert_eq!(b.as_str(), "");
    let mut c = new_word_bounds("\u{6dd}1");
    assert_eq!(c.next(), Some("\u{6dd}1"));
    let mut d = new_word_bounds(" \u{301} ");
    assert_eq!(d.next(), Some(" \u{301}"));
    assert_eq!(d.as_str(), " ");
}
