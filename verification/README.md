# unicode_segmentation (word boundaries)

Word boundaries of Unicode text after
[UAX #29](http://www.unicode.org/reports/tr29/#Word_Boundaries), written in
Verus: every function states what it returns, and Verus proves it.

## Layout

- `src/tables.rs`: the Word_Break, Extended_Pictographic and alphanumeric
  (Alphabetic or Number) range tables of the Unicode Character Database
  (version 17.0), a verified binary search over them, the lookups
  `word_category`, `emoji_category` and `is_alphanumeric`, lemmas that read
  the category of a given character off the tables, and the
  facts about the tables that the laws use (the ASCII rows, and that a
  pictograph has no word break category or is an ALetter).
- `src/word_rules.rs`: the boundary rules as two scans over the categories
  of a character sequence, one from the front (`fwd_len`: the length of the
  first segment) and one from the back (`back_start`: where the last segment
  starts).
- `src/ascii_rules.rs`: the same rules on ASCII bytes, as the fast path
  applies them.
- `src/text.rs`: UTF-8 lengths and splitting a string after a number of
  characters.
- `src/word.rs`: the iterators `UWordBounds`, `UWordBoundIndices`,
  `AsciiWordBoundIter`, `UnicodeWords` and `UnicodeWordIndices`. Each `next`
  and `next_back` is proved to return exactly the segment that the rules
  give, with its byte offset.
- `src/laws.rs`: the fast path agrees with the general rules on ASCII text,
  iterated from either end; the segments cover the text and their byte
  offsets point at them; `size_hint` bounds the number of segments; the
  words are the segments that hold a letter or a digit.
- `src/ascii_cuts.rs`: the fast path's boundaries as a property of the
  bytes around each position; from it, iterating ASCII text from the back
  gives the segments (and the words) that iterating from the front gives,
  in reverse order, on the fast path and on the general one.
- `src/line_breaks.rs`: CR LF stays together and every other line separator
  is a segment of its own.
- `src/joining.rs`: what the rules never split: letters, digits, Katakana,
  connectors and horizontal space (also across a middle character such as
  the apostrophe in "can't"), Format and Extend characters with what
  precedes them, a ZWJ with the pictograph after it, and regional
  indicators in pairs, counted from the start of their run in both
  directions.

The iterators offer `next`, `next_back` and `size_hint` as inherent methods;
`app/` wraps them in the standard `Iterator` and `DoubleEndedIterator`
traits.
