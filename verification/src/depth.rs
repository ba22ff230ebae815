//! How deep the `semver` crate has to go into an identifier.
//!
//! That crate reads a version from the left: blanks, three numbers with dots
//! between them, then the identifiers of the pre-release tag after a hyphen
//! and those of the build metadata after a plus sign, with dots between the
//! identifiers. An identifier is made of runs of ASCII letters and digits
//! with hyphens between them, and the crate reads what follows each hyphen
//! one level further inside. It cannot go further than `MAX_DEPTH` levels.
//! [`too_deep`] says of a text that reading it would come to that point.

use crate::decimal::{component_value, parse_component};
use crate::text::{chars_of, Span};
use vstd::prelude::*;

verus! {

/// The deepest level inside an identifier that the `semver` crate reads.
pub const MAX_DEPTH: usize = 255;

/// `c` is an ASCII letter or digit.
pub open spec fn is_alnum(c: char) -> bool {
    ('0' <= c && c <= '9') || ('A' <= c && c <= 'Z') || ('a' <= c && c <= 'z')
}

/// `c` is a blank: a space, a tab, a line feed or a carriage return.
pub open spec fn is_blank(c: char) -> bool {
    c == ' ' || c == '\t' || c == '\n' || c == '\r'
}

/// `c` is one of the signs that are a token by themselves.
pub open spec fn is_sign(c: char) -> bool {
    c == '=' || c == '>' || c == '<' || c == '^' || c == '~' || c == '*' || c == '.' || c == ','
        || c == '-' || c == '+'
}

/// A token begins at `pos`, or the text ends there. A token begins with a
/// blank, a letter, a digit or a sign, or it is two vertical bars.
pub open spec fn token_at(text: Seq<char>, pos: int) -> bool {
    pos >= text.len() || is_blank(text[pos]) || is_alnum(text[pos]) || is_sign(text[pos]) || (
    text[pos] == '|' && pos + 1 < text.len() && text[pos + 1] == '|')
}

/// The end of the letters and digits that begin at `pos`.
pub open spec fn alnum_end(text: Seq<char>, pos: int) -> int
    decreases text.len() - pos,
{
    if 0 <= pos < text.len() && is_alnum(text[pos]) {
        alnum_end(text, pos + 1)
    } else {
        pos
    }
}

/// The end of the blanks that begin at `pos`.
pub open spec fn blank_end(text: Seq<char>, pos: int) -> int
    decreases text.len() - pos,
{
    if 0 <= pos < text.len() && is_blank(text[pos]) {
        blank_end(text, pos + 1)
    } else {
        pos
    }
}

/// How the reading of one identifier goes.
pub enum Scan {
    /// It comes to the level after `MAX_DEPTH`.
    Deep,
    /// It stops with an error before that.
    Broken,
    /// The identifier ends at this position.
    Ends(int),
}

/// How the reading of the identifier goes on at `pos`, `depth` hyphens into
/// it. There must be letters or digits at `pos`. After them the identifier
/// ends, unless a hyphen follows: then the reading goes on behind the
/// hyphen, one level deeper. Behind the hyphen that leads beyond
/// `MAX_DEPTH` the reading only gets there if a token begins after it.
pub open spec fn identifier_scan(text: Seq<char>, pos: int, depth: nat) -> Scan
    decreases text.len() - pos,
{
    let end = alnum_end(text, pos);
    if end <= pos {
        Scan::Broken
    } else if end < text.len() && text[end] == '-' {
        if depth >= MAX_DEPTH {
            if token_at(text, end + 1) {
                Scan::Deep
            } else {
                Scan::Broken
            }
        } else {
            identifier_scan(text, end + 1, depth + 1)
        }
    } else {
        Scan::Ends(end)
    }
}

/// Reading the identifiers from `pos` on comes to an identifier that is too
/// deep. After an identifier that ends, a dot leads to the next one; so
/// does a plus sign, once: with it the build metadata begin, and `build`
/// says that they have begun.
pub open spec fn deep_from(text: Seq<char>, pos: int, build: bool) -> bool
    decreases text.len() - pos,
{
    match identifier_scan(text, pos, 0) {
        Scan::Deep => true,
        Scan::Broken => false,
        Scan::Ends(end) => if pos < end < text.len() && text[end] == '.' {
            deep_from(text, end + 1, build)
        } else if pos < end < text.len() && text[end] == '+' && !build {
            deep_from(text, end + 1, true)
        } else {
            false
        },
    }
}

/// The position after the three numbers that a version begins with, if the
/// text begins with them: blanks if any, then three numbers, each written
/// without a leading zero and fitting in 64 bits, with a dot after the
/// first and after the second.
pub open spec fn numbers_end(text: Seq<char>) -> Option<int> {
    let major = blank_end(text, 0);
    let dot = alnum_end(text, major);
    let second_dot = alnum_end(text, dot + 1);
    let end = alnum_end(text, second_dot + 1);
    if component_value(text.subrange(major, dot)) is Some && dot < text.len() && text[dot] == '.'
        && component_value(text.subrange(dot + 1, second_dot)) is Some && second_dot < text.len()
        && text[second_dot] == '.' && component_value(text.subrange(second_dot + 1, end))
        is Some {
        Some(end)
    } else {
        None
    }
}

/// Reading `text` as a version would take the `semver` crate more than
/// `MAX_DEPTH` hyphens deep into one identifier: the text begins with the
/// three numbers, a hyphen or a plus sign follows them, and the identifiers
/// after it lead to one that is too deep.
pub open spec fn too_deep(text: Seq<char>) -> bool {
    match numbers_end(text) {
        None => false,
        Some(end) => end < text.len() && ((text[end] == '-' && deep_from(text, end + 1, false))
            || (text[end] == '+' && deep_from(text, end + 1, true))),
    }
}

/// The number of hyphens in `text` from `pos` on.
pub open spec fn hyphens_from(text: Seq<char>, pos: int) -> nat
    decreases text.len() - pos,
{
    if 0 <= pos < text.len() {
        if text[pos] == '-' {
            hyphens_from(text, pos + 1) + 1
        } else {
            hyphens_from(text, pos + 1)
        }
    } else {
        0
    }
}

/// There are no more hyphens from a later position on than from an earlier
/// one.
pub proof fn lemma_hyphens_from_later(text: Seq<char>, earlier: int, later: int)
    requires
        0 <= earlier <= later,
    ensures
        hyphens_from(text, earlier) >= hyphens_from(text, later),
    decreases later - earlier,
{
    if earlier < later {
        lemma_hyphens_from_later(text, earlier + 1, later);
    }
}

/// A run of letters and digits does not end before it begins, nor do
/// blanks.
pub proof fn lemma_run_ends_later(text: Seq<char>, pos: int)
    ensures
        alnum_end(text, pos) >= pos,
        blank_end(text, pos) >= pos,
    decreases text.len() - pos,
{
    if 0 <= pos < text.len() {
        lemma_run_ends_later(text, pos + 1);
    }
}

/// Where the reading of an identifier gets too deep, the hyphens passed
/// before and those still to come are more than `MAX_DEPTH`.
pub proof fn lemma_deep_identifier_has_hyphens(text: Seq<char>, pos: int, depth: nat)
    requires
        0 <= pos,
        identifier_scan(text, pos, depth) is Deep,
    ensures
        hyphens_from(text, pos) + depth > MAX_DEPTH,
    decreases text.len() - pos,
{
    let end = alnum_end(text, pos);
    lemma_hyphens_from_later(text, pos, end);
    if depth < MAX_DEPTH {
        lemma_deep_identifier_has_hyphens(text, end + 1, depth + 1);
    }
}

/// Where the reading of identifiers comes to one that is too deep, more
/// than `MAX_DEPTH` hyphens are to come.
pub proof fn lemma_deep_from_has_hyphens(text: Seq<char>, pos: int, build: bool)
    requires
        0 <= pos,
        deep_from(text, pos, build),
    ensures
        hyphens_from(text, pos) > MAX_DEPTH,
    decreases text.len() - pos,
{
    match identifier_scan(text, pos, 0) {
        Scan::Deep => {
            lemma_deep_identifier_has_hyphens(text, pos, 0);
        },
        Scan::Broken => {},
        Scan::Ends(end) => {
            lemma_hyphens_from_later(text, pos, end + 1);
            if text[end] == '.' {
                lemma_deep_from_has_hyphens(text, end + 1, build);
            } else {
                lemma_deep_from_has_hyphens(text, end + 1, true);
            }
        },
    }
}

/// Only text with more than `MAX_DEPTH` hyphens is too deep: no version
/// with fewer hyphens is ever refused for its depth.
pub proof fn lemma_too_deep_has_hyphens(text: Seq<char>)
    requires
        too_deep(text),
    ensures
        hyphens_from(text, 0) > MAX_DEPTH,
{
    let major = blank_end(text, 0);
    let dot = alnum_end(text, major);
    let second_dot = alnum_end(text, dot + 1);
    let end = alnum_end(text, second_dot + 1);
    lemma_run_ends_later(text, 0);
    lemma_run_ends_later(text, major);
    lemma_run_ends_later(text, dot + 1);
    lemma_run_ends_later(text, second_dot + 1);
    lemma_hyphens_from_later(text, 0, end + 1);
    if text[end] == '-' {
        lemma_deep_from_has_hyphens(text, end + 1, false);
    } else {
        lemma_deep_from_has_hyphens(text, end + 1, true);
    }
}

fn is_alnum_char(c: char) -> (yes: bool)
    ensures
        yes == is_alnum(c),
{
    (c >= '0' && c <= '9') || (c >= 'A' && c <= 'Z') || (c >= 'a' && c <= 'z')
}

fn is_blank_char(c: char) -> (yes: bool)
    ensures
        yes == is_blank(c),
{
    c == ' ' || c == '\t' || c == '\n' || c == '\r'
}

fn is_sign_char(c: char) -> (yes: bool)
    ensures
        yes == is_sign(c),
{
    c == '=' || c == '>' || c == '<' || c == '^' || c == '~' || c == '*' || c == '.' || c == ','
        || c == '-' || c == '+'
}

fn token_begins(chars: &Vec<char>, pos: usize) -> (yes: bool)
    requires
        pos <= chars.len(),
    ensures
        yes == token_at(chars@, pos as int),
{
    if pos >= chars.len() {
        return true;
    }
    let c = chars[pos];
    is_blank_char(c) || is_alnum_char(c) || is_sign_char(c) || (c == '|' && pos + 1 < chars.len()
        && chars[pos + 1] == '|')
}

fn alnum_run_end(chars: &Vec<char>, pos: usize) -> (end: usize)
    requires
        pos <= chars.len(),
    ensures
        end == alnum_end(chars@, pos as int),
        pos <= end <= chars.len(),
{
    let mut end = pos;
    while end < chars.len() && is_alnum_char(chars[end])
        invariant
            pos <= end <= chars.len(),
            alnum_end(chars@, pos as int) == alnum_end(chars@, end as int),
        decreases chars.len() - end,
    {
        end += 1;
    }
    end
}

fn blank_run_end(chars: &Vec<char>, pos: usize) -> (end: usize)
    requires
        pos <= chars.len(),
    ensures
        end == blank_end(chars@, pos as int),
        pos <= end <= chars.len(),
{
    let mut end = pos;
    while end < chars.len() && is_blank_char(chars[end])
        invariant
            pos <= end <= chars.len(),
            blank_end(chars@, pos as int) == blank_end(chars@, end as int),
        decreases chars.len() - end,
    {
        end += 1;
    }
    end
}

/// How the reading of one identifier goes, as the executable code tells it.
enum Scanned {
    Deep,
    Broken,
    Ends(usize),
}

fn scan_identifier(chars: &Vec<char>, pos: usize) -> (scanned: Scanned)
    requires
        pos <= chars.len(),
    ensures
        match scanned {
            Scanned::Deep => identifier_scan(chars@, pos as int, 0) is Deep,
            Scanned::Broken => identifier_scan(chars@, pos as int, 0) is Broken,
            Scanned::Ends(end) => identifier_scan(chars@, pos as int, 0) == Scan::Ends(end as int)
                && pos < end <= chars.len(),
        },
{
    let mut at = pos;
    let mut depth: usize = 0;
    loop
        invariant
            pos <= at <= chars.len(),
            depth <= MAX_DEPTH,
            identifier_scan(chars@, pos as int, 0) == identifier_scan(
                chars@,
                at as int,
                depth as nat,
            ),
        decreases chars.len() - at,
    {
        let end = alnum_run_end(chars, at);
        if end == at {
            return Scanned::Broken;
        }
        if end < chars.len() && chars[end] == '-' {
            if depth >= MAX_DEPTH {
                if token_begins(chars, end + 1) {
                    return Scanned::Deep;
                } else {
                    return Scanned::Broken;
                }
            }
            depth += 1;
            at = end + 1;
        } else {
            return Scanned::Ends(end);
        }
    }
}

fn is_deep_from(chars: &Vec<char>, pos: usize, build: bool) -> (deep: bool)
    requires
        pos <= chars.len(),
    ensures
        deep == deep_from(chars@, pos as int, build),
{
    let mut at = pos;
    let mut in_build = build;
    loop
        invariant
            at <= chars.len(),
            deep_from(chars@, pos as int, build) == deep_from(chars@, at as int, in_build),
        decreases chars.len() - at,
    {
        match scan_identifier(chars, at) {
            Scanned::Deep => {
                return true;
            },
            Scanned::Broken => {
                return false;
            },
            Scanned::Ends(end) => {
                if end < chars.len() && chars[end] == '.' {
                    at = end + 1;
                } else if end < chars.len() && chars[end] == '+' && !in_build {
                    in_build = true;
                    at = end + 1;
                } else {
                    return false;
                }
            },
        }
    }
}

/// Whether reading `text` as a version would take the `semver` crate too
/// deep into an identifier.
pub fn is_too_deep(text: &str) -> (deep: bool)
    ensures
        deep == too_deep(text@),
{
    let chars = chars_of(text);
    let major = blank_run_end(&chars, 0);
    let dot = alnum_run_end(&chars, major);
    if parse_component(&chars, Span { start: major, end: dot }).is_none() {
        return false;
    }
    if dot >= chars.len() || chars[dot] != '.' {
        return false;
    }
    let second_dot = alnum_run_end(&chars, dot + 1);
    if parse_component(&chars, Span { start: dot + 1, end: second_dot }).is_none() {
        return false;
    }
    if second_dot >= chars.len() || chars[second_dot] != '.' {
        return false;
    }
    let end = alnum_run_end(&chars, second_dot + 1);
    if parse_component(&chars, Span { start: second_dot + 1, end }).is_none() {
        return false;
    }
    if end >= chars.len() {
        return false;
    }
    if chars[end] == '-' {
        is_deep_from(&chars, end + 1, false)
    } else if chars[end] == '+' {
        is_deep_from(&chars, end + 1, true)
    } else {
        false
    }
}

} // verus!
