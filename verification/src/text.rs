//! Character-level scanning: splitting text at a separator, lines, prefixes.
//!
//! Text is modelled as `Seq<char>`. The executable functions work on the
//! characters of a text collected once into a `Vec<char>`, and describe parts
//! of it by [`Span`]s, so that every scan is linear.

use vstd::prelude::*;

verus! {

/// A half-open range of character positions in a text.
#[derive(Clone, Copy, Debug)]
pub struct Span {
    /// Position of the first character.
    pub start: usize,
    /// Position after the last character.
    pub end: usize,
}

impl Span {
    /// The span lies inside `text`.
    pub open spec fn within(self, text: Seq<char>) -> bool {
        self.start <= self.end <= text.len()
    }

    /// The characters of `text` that the span covers.
    pub open spec fn of(self, text: Seq<char>) -> Seq<char> {
        text.subrange(self.start as int, self.end as int)
    }
}

/// Every span of `spans` lies inside `text`.
pub open spec fn spans_within(text: Seq<char>, spans: Seq<Span>) -> bool {
    forall|i: int| 0 <= i < spans.len() ==> (#[trigger] spans[i]).within(text)
}

/// The parts of `text` that `spans` cover, in order.
pub open spec fn spans_of(text: Seq<char>, spans: Seq<Span>) -> Seq<Seq<char>> {
    Seq::new(spans.len(), |i: int| spans[i].of(text))
}

/// The pieces of `s` between occurrences of `sep`. There is always at least
/// one piece, and a piece may be empty.
pub open spec fn split_on(s: Seq<char>, sep: char) -> Seq<Seq<char>>
    decreases s.len(),
{
    match s.index_of_first(sep) {
        None => seq![s],
        Some(n) => {
            proof {
                s.index_of_first_ensures(sep);
            }
            seq![s.take(n)] + split_on(s.skip(n + 1), sep)
        },
    }
}

/// `line` without one trailing carriage return, if it has one.
pub open spec fn strip_cr(line: Seq<char>) -> Seq<char> {
    if line.len() > 0 && line.last() == '\r' {
        line.drop_last()
    } else {
        line
    }
}

/// The lines of `text`. A line ends at a line feed, or at a carriage return
/// directly followed by a line feed; neither belongs to the line. The last
/// line needs no line ending, and text that ends with a line ending has no
/// further, empty line after it.
pub open spec fn split_lines(text: Seq<char>) -> Seq<Seq<char>> {
    let pieces = split_on(text, '\n');
    let ended = pieces.drop_last().map_values(|p: Seq<char>| strip_cr(p));
    if pieces.last().len() == 0 {
        ended
    } else {
        ended.push(pieces.last())
    }
}

/// What follows `prefix` in `line`, if `line` begins with it.
pub open spec fn strip_prefix(line: Seq<char>, prefix: Seq<char>) -> Option<Seq<char>> {
    if prefix.is_prefix_of(line) {
        Some(line.skip(prefix.len() as int))
    } else {
        None
    }
}

/// An occurrence of `c` with none before it is the first one.
pub proof fn lemma_first_occurrence(s: Seq<char>, c: char, i: int)
    requires
        0 <= i < s.len(),
        s[i] == c,
        forall|j: int| 0 <= j < i ==> s[j] != c,
    ensures
        s.index_of_first(c) == Some(i),
{
    s.index_of_first_ensures(c);
}

/// A character that occurs nowhere has no first occurrence.
pub proof fn lemma_no_occurrence(s: Seq<char>, c: char)
    requires
        forall|j: int| 0 <= j < s.len() ==> s[j] != c,
    ensures
        s.index_of_first(c) is None,
{
    s.index_of_first_ensures(c);
}

/// Splitting always yields at least one piece.
pub proof fn lemma_split_nonempty(s: Seq<char>, sep: char)
    ensures
        split_on(s, sep).len() >= 1,
{
    s.index_of_first_ensures(sep);
}

/// The pieces of a split, joined by the separator, give the text again.
pub proof fn lemma_split_joins(s: Seq<char>, sep: char)
    ensures
        split_on(s, sep).len() == 1 ==> s == split_on(s, sep)[0],
        split_on(s, sep).len() == 2 ==> s == split_on(s, sep)[0] + seq![sep] + split_on(
            s,
            sep,
        )[1],
{
    s.index_of_first_ensures(sep);
    match s.index_of_first(sep) {
        None => {},
        Some(n) => {
            let rest = s.skip(n + 1);
            rest.index_of_first_ensures(sep);
            lemma_split_nonempty(rest, sep);
            if split_on(s, sep).len() == 2 {
                assert(split_on(rest, sep).len() == 1);
                if rest.index_of_first(sep) is Some {
                    let m = rest.index_of_first(sep).unwrap();
                    lemma_split_nonempty(rest.skip(m + 1), sep);
                }
                assert(split_on(rest, sep)[0] == rest);
                assert(s == s.take(n) + seq![sep] + rest);
            }
        },
    }
}

/// Text without the separator is a single piece.
pub proof fn lemma_split_one(a: Seq<char>, sep: char)
    requires
        !a.contains(sep),
    ensures
        split_on(a, sep) == seq![a],
{
    lemma_no_occurrence(a, sep);
}

/// Two texts without the separator, joined by it, split into the two.
pub proof fn lemma_split_two(a: Seq<char>, b: Seq<char>, sep: char)
    requires
        !a.contains(sep),
        !b.contains(sep),
    ensures
        split_on(a + seq![sep] + b, sep) == seq![a, b],
{
    let s = a + seq![sep] + b;
    assert forall|j: int| 0 <= j < a.len() implies s[j] != sep by {
        assert(s[j] == a[j]);
    }
    lemma_first_occurrence(s, sep, a.len() as int);
    assert(s.take(a.len() as int) == a);
    assert(s.skip(a.len() as int + 1) == b);
    lemma_split_one(b, sep);
    assert(seq![a] + seq![b] == seq![a, b]);
}

/// Collects the characters of `text` in order.
pub fn chars_of(text: &str) -> (chars: Vec<char>)
    ensures
        chars@ == text@,
{
    let mut chars: Vec<char> = Vec::new();
    for c in it: text.chars()
        invariant
            chars@ == it.seq().take(it.index()),
            it.seq() == text@,
    {
        chars.push(c);
    }
    chars
}

/// Whether two texts are the same.
pub fn same_text(a: &str, b: &str) -> (same: bool)
    ensures
        same == (a@ == b@),
{
    let left = chars_of(a);
    let right = chars_of(b);
    if left.len() != right.len() {
        return false;
    }
    let mut k: usize = 0;
    while k < left.len()
        invariant
            left@ == a@,
            right@ == b@,
            left.len() == right.len(),
            k <= left.len(),
            forall|j: int| 0 <= j < k ==> left@[j] == right@[j],
        decreases left.len() - k,
    {
        if left[k] != right[k] {
            return false;
        }
        k += 1;
    }
    assert(left@ == right@);
    true
}

/// Splits `chars` at every occurrence of `sep`.
pub fn split_spans(chars: &Vec<char>, sep: char) -> (spans: Vec<Span>)
    ensures
        spans_within(chars@, spans@),
        spans_of(chars@, spans@) == split_on(chars@, sep),
{
    let mut spans: Vec<Span> = Vec::new();
    let mut start: usize = 0;
    let mut i: usize = 0;
    proof {
        assert(chars@.skip(0) == chars@);
        assert(spans_of(chars@, spans@) + split_on(chars@, sep) == split_on(chars@, sep));
    }
    while i < chars.len()
        invariant
            start <= i <= chars.len(),
            spans_within(chars@, spans@),
            forall|j: int| start <= j < i ==> chars@[j] != sep,
            split_on(chars@, sep) == spans_of(chars@, spans@) + split_on(
                chars@.skip(start as int),
                sep,
            ),
        decreases chars.len() - i,
    {
        if chars[i] == sep {
            let span = Span { start, end: i };
            proof {
                let tail = chars@.skip(start as int);
                lemma_first_occurrence(tail, sep, i - start);
                assert(tail.take(i - start) == span.of(chars@));
                assert(tail.skip(i - start + 1) == chars@.skip(i + 1));
                assert(spans_of(chars@, spans@.push(span)) == spans_of(chars@, spans@) + seq![
                    span.of(chars@),
                ]);
            }
            spans.push(span);
            start = i + 1;
        }
        i += 1;
    }
    let span = Span { start, end: i };
    proof {
        let tail = chars@.skip(start as int);
        lemma_no_occurrence(tail, sep);
        assert(tail == span.of(chars@));
        assert(spans_of(chars@, spans@.push(span)) == spans_of(chars@, spans@) + seq![
            span.of(chars@),
        ]);
    }
    spans.push(span);
    spans
}

/// The lines of `chars`.
pub fn line_spans(chars: &Vec<char>) -> (lines: Vec<Span>)
    ensures
        spans_within(chars@, lines@),
        spans_of(chars@, lines@) == split_lines(chars@),
{
    let mut spans = split_spans(chars, '\n');
    proof {
        lemma_split_nonempty(chars@, '\n');
    }
    let ghost pieces = spans@;
    let last = spans.len() - 1;
    let mut k: usize = 0;
    while k < last
        invariant
            spans.len() == pieces.len(),
            last == spans.len() - 1,
            k <= last,
            spans_within(chars@, pieces),
            spans_within(chars@, spans@),
            forall|j: int| 0 <= j < k ==> (#[trigger] spans@[j]).of(chars@) == strip_cr(pieces[j].of(chars@)),
            forall|j: int| k <= j < spans.len() ==> #[trigger] spans@[j] == pieces[j],
        decreases last - k,
    {
        let piece = spans[k];
        assert(piece.within(chars@));
        if piece.start < piece.end && chars[piece.end - 1] == '\r' {
            let line = Span { start: piece.start, end: piece.end - 1 };
            assert(line.of(chars@) == piece.of(chars@).drop_last());
            spans.set(k, line);
        }
        k += 1;
    }
    let tail = spans[last];
    if tail.start == tail.end {
        spans.pop();
    }
    proof {
        let parts = split_on(chars@, '\n');
        assert forall|j: int| 0 <= j < pieces.len() implies #[trigger] parts[j] == pieces[j].of(chars@) by {
            assert(spans_of(chars@, pieces)[j] == pieces[j].of(chars@));
        }
        assert(spans_of(chars@, spans@) == split_lines(chars@));
    }
    spans
}

/// The part of `span` after `prefix`, if the text of `span` begins with it.
pub fn span_after_prefix(chars: &Vec<char>, span: Span, prefix: &str) -> (rest: Option<Span>)
    requires
        span.within(chars@),
    ensures
        match rest {
            Some(r) => r.within(chars@) && strip_prefix(span.of(chars@), prefix@) == Some(
                r.of(chars@),
            ),
            None => strip_prefix(span.of(chars@), prefix@) is None,
        },
{
    let wanted = chars_of(prefix);
    if wanted.len() > span.end - span.start {
        return None;
    }
    let ghost line = span.of(chars@);
    let mut k: usize = 0;
    while k < wanted.len()
        invariant
            span.within(chars@),
            line == span.of(chars@),
            wanted@ == prefix@,
            wanted.len() <= span.end - span.start,
            k <= wanted.len(),
            forall|j: int| 0 <= j < k ==> line[j] == wanted@[j],
        decreases wanted.len() - k,
    {
        if chars[span.start + k] != wanted[k] {
            assert(line[k as int] != wanted@[k as int]);
            return None;
        }
        k += 1;
    }
    let rest = Span { start: span.start + wanted.len(), end: span.end };
    proof {
        assert(wanted@ == line.subrange(0, wanted@.len() as int));
        assert(rest.of(chars@) == line.skip(wanted@.len() as int));
    }
    Some(rest)
}

/// Whether the text of `span` is exactly `word`.
pub fn span_is(chars: &Vec<char>, span: Span, word: &str) -> (same: bool)
    requires
        span.within(chars@),
    ensures
        same == (span.of(chars@) == word@),
{
    let wanted = chars_of(word);
    if wanted.len() != span.end - span.start {
        return false;
    }
    let ghost line = span.of(chars@);
    let mut k: usize = 0;
    while k < wanted.len()
        invariant
            span.within(chars@),
            line == span.of(chars@),
            wanted@ == word@,
            wanted.len() == span.end - span.start,
            k <= wanted.len(),
            forall|j: int| 0 <= j < k ==> line[j] == wanted@[j],
        decreases wanted.len() - k,
    {
        if chars[span.start + k] != wanted[k] {
            assert(line[k as int] != wanted@[k as int]);
            return false;
        }
        k += 1;
    }
    assert(line == wanted@);
    true
}

} // verus!
