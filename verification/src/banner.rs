//! The lines of the banner that `rustc -vV` prints, and the fields in them.
//!
//! The banner has between six and eight lines. The first is the short
//! version string. The third and the fourth hold the commit hash and the
//! commit date. A line with the build date may follow; old compilers print
//! it, later ones do not. Then come the host and the release, and after them
//! there may be a line with the LLVM version.

use crate::errors::Error;
use crate::text::{
    chars_of, line_spans, span_after_prefix, span_is, spans_of, split_lines, Span,
};
use vstd::prelude::*;

verus! {

/// The fields of a banner, as texts. The release and the line after it are
/// not read further here.
#[derive(Clone, Copy, Debug)]
pub struct BannerFields<'a> {
    /// The first line.
    pub short_version_string: &'a str,
    /// The commit hash, unless it is unknown.
    pub commit_hash: Option<&'a str>,
    /// The commit date, unless it is unknown.
    pub commit_date: Option<&'a str>,
    /// The build date, if the banner has one and it is not unknown.
    pub build_date: Option<&'a str>,
    /// The host triple.
    pub host: &'a str,
    /// The release: the text of a semantic version.
    pub release: &'a str,
    /// The line after the release, if there is one.
    pub llvm_line: Option<&'a str>,
}

/// What [`BannerFields`] hold.
pub struct BannerFieldsView {
    pub short_version_string: Seq<char>,
    pub commit_hash: Option<Seq<char>>,
    pub commit_date: Option<Seq<char>>,
    pub build_date: Option<Seq<char>>,
    pub host: Seq<char>,
    pub release: Seq<char>,
    pub llvm_line: Option<Seq<char>>,
}

/// The text of an optional field.
pub open spec fn optional_text(field: Option<&str>) -> Option<Seq<char>> {
    match field {
        Some(text) => Some(text@),
        None => None,
    }
}

impl<'a> View for BannerFields<'a> {
    type V = BannerFieldsView;

    open spec fn view(&self) -> BannerFieldsView {
        BannerFieldsView {
            short_version_string: self.short_version_string@,
            commit_hash: optional_text(self.commit_hash),
            commit_date: optional_text(self.commit_date),
            build_date: optional_text(self.build_date),
            host: self.host@,
            release: self.release@,
            llvm_line: optional_text(self.llvm_line),
        }
    }
}

/// The value of a field that may be unknown: the word `unknown` stands for
/// no value, and any other text is the value.
pub open spec fn optional_value(value: Seq<char>) -> Option<Seq<char>> {
    if value == "unknown"@ {
        None
    } else {
        Some(value)
    }
}

/// What stands in `line` after the label `label`.
pub open spec fn labelled(line: Seq<char>, label: Seq<char>) -> Seq<char> {
    line.skip(label.len() as int)
}

/// The banner has a line with the build date: its fifth line begins with
/// `build-date`.
pub open spec fn has_build_date(lines: Seq<Seq<char>>) -> bool {
    "build-date"@.is_prefix_of(lines[4])
}

/// The index of the line with the host: the one after the build date, or
/// the fifth line where the banner has no build date.
pub open spec fn host_index(lines: Seq<Seq<char>>) -> int {
    if has_build_date(lines) {
        5
    } else {
        4
    }
}

/// The lines are those of a banner: there are six to eight of them, and
/// each line that holds a field begins with the label of that field.
pub open spec fn well_formed(lines: Seq<Seq<char>>) -> bool {
    &&& 6 <= lines.len() <= 8
    &&& "commit-hash: "@.is_prefix_of(lines[2])
    &&& "commit-date: "@.is_prefix_of(lines[3])
    &&& has_build_date(lines) ==> "build-date: "@.is_prefix_of(lines[4])
    &&& "host: "@.is_prefix_of(lines[host_index(lines)])
    &&& host_index(lines) + 1 < lines.len()
    &&& "release: "@.is_prefix_of(lines[host_index(lines) + 1])
}

/// The fields of a well-formed banner.
pub open spec fn fields_of(lines: Seq<Seq<char>>) -> BannerFieldsView {
    let host = host_index(lines);
    BannerFieldsView {
        short_version_string: lines[0],
        commit_hash: optional_value(labelled(lines[2], "commit-hash: "@)),
        commit_date: optional_value(labelled(lines[3], "commit-date: "@)),
        build_date: if has_build_date(lines) {
            optional_value(labelled(lines[4], "build-date: "@))
        } else {
            None
        },
        host: labelled(lines[host], "host: "@),
        release: labelled(lines[host + 1], "release: "@),
        llvm_line: if host + 2 < lines.len() {
            Some(lines[host + 2])
        } else {
            None
        },
    }
}

/// The part of `text` that `span` covers.
fn slice<'a>(text: &'a str, span: Span) -> (part: &'a str)
    requires
        span.within(text@),
    ensures
        part@ == span.of(text@),
{
    text.substring_char(span.start, span.end)
}

/// The value that `span` covers, unless it is the word `unknown`.
fn optional_slice<'a>(text: &'a str, chars: &Vec<char>, span: Span) -> (value: Option<&'a str>)
    requires
        chars@ == text@,
        span.within(text@),
    ensures
        optional_text(value) == optional_value(span.of(text@)),
{
    if span_is(chars, span, "unknown") {
        None
    } else {
        Some(slice(text, span))
    }
}

/// Finds the fields of the banner `text`.
pub fn banner_fields<'a>(text: &'a str) -> (outcome: Result<BannerFields<'a>, Error>)
    ensures
        match outcome {
            Ok(fields) => well_formed(split_lines(text@)) && fields@ == fields_of(
                split_lines(text@),
            ),
            Err(e) => !well_formed(split_lines(text@)) && e is UnexpectedVersionFormat,
        },
{
    let chars = chars_of(text);
    let spans = line_spans(&chars);
    let ghost lines = split_lines(text@);
    proof {
        assert(lines.len() == spans.len());
        assert forall|i: int| 0 <= i < spans.len() implies lines[i] == (#[trigger] spans@[i]).of(
            text@,
        ) && spans@[i].within(text@) by {
            assert(spans_of(chars@, spans@)[i] == spans@[i].of(chars@));
        }
    }
    if spans.len() < 6 || spans.len() > 8 {
        return Err(Error::UnexpectedVersionFormat);
    }
    let commit_hash = match span_after_prefix(&chars, spans[2], "commit-hash: ") {
        Some(rest) => optional_slice(text, &chars, rest),
        None => {
            return Err(Error::UnexpectedVersionFormat);
        },
    };
    let commit_date = match span_after_prefix(&chars, spans[3], "commit-date: ") {
        Some(rest) => optional_slice(text, &chars, rest),
        None => {
            return Err(Error::UnexpectedVersionFormat);
        },
    };
    let mut index: usize = 4;
    let mut build_date: Option<&'a str> = None;
    if span_after_prefix(&chars, spans[4], "build-date").is_some() {
        build_date = match span_after_prefix(&chars, spans[4], "build-date: ") {
            Some(rest) => optional_slice(text, &chars, rest),
            None => {
                return Err(Error::UnexpectedVersionFormat);
            },
        };
        index = 5;
    }
    let host = match span_after_prefix(&chars, spans[index], "host: ") {
        Some(rest) => slice(text, rest),
        None => {
            return Err(Error::UnexpectedVersionFormat);
        },
    };
    index = index + 1;
    if index >= spans.len() {
        return Err(Error::UnexpectedVersionFormat);
    }
    let release = match span_after_prefix(&chars, spans[index], "release: ") {
        Some(rest) => slice(text, rest),
        None => {
            return Err(Error::UnexpectedVersionFormat);
        },
    };
    index = index + 1;
    let llvm_line = if index < spans.len() {
        Some(slice(text, spans[index]))
    } else {
        None
    };
    Ok(
        BannerFields {
            short_version_string: slice(text, spans[0]),
            commit_hash,
            commit_date,
            build_date,
            host,
            release,
            llvm_line,
        },
    )
}

} // verus!
