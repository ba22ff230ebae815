//! The metadata of a compiler, read from its banner.

use crate::banner::{
    banner_fields, fields_of, has_build_date, labelled, optional_text, optional_value,
    well_formed, BannerFields, BannerFieldsView,
};
use crate::channel::{channel_of, Channel};
use crate::errors::{Error, ErrorView};
use crate::llvm::{llvm_version_of, LLVMVersion};
use crate::text::{chars_of, span_after_prefix, split_lines, strip_prefix, Span};
use crate::depth::too_deep;
use crate::version::{semver_parsed, version_of, Version, VersionView};
use vstd::prelude::*;

verus! {

/// Version of the compiler plus metadata like the commit hash and the build
/// date.
///
/// Equality and hashing go field by field; for `semver` that includes the
/// build metadata of the version, as [`Version`] says.
#[derive(Clone, Debug, Eq, PartialEq, Hash)]
pub struct VersionMeta {
    /// Version of the compiler
    pub semver: Version,
    /// Git hash of the commit that the compiler was built from
    pub commit_hash: Option<String>,
    /// Commit date of the compiler
    pub commit_date: Option<String>,
    /// Build date of the compiler; only old compilers tell it.
    pub build_date: Option<String>,
    /// Release channel of the compiler
    pub channel: Channel,
    /// Host target triple of the compiler
    pub host: String,
    /// Short version string of the compiler
    pub short_version_string: String,
    /// Version of LLVM used by the compiler
    pub llvm_version: Option<LLVMVersion>,
}

/// What a [`VersionMeta`] holds.
pub struct VersionMetaView {
    pub semver: VersionView,
    pub commit_hash: Option<Seq<char>>,
    pub commit_date: Option<Seq<char>>,
    pub build_date: Option<Seq<char>>,
    pub channel: Channel,
    pub host: Seq<char>,
    pub short_version_string: Seq<char>,
    pub llvm_version: Option<LLVMVersion>,
}

/// The text of an optional string.
pub open spec fn optional_string(field: Option<String>) -> Option<Seq<char>> {
    match field {
        Some(text) => Some(text@),
        None => None,
    }
}

impl View for VersionMeta {
    type V = VersionMetaView;

    open spec fn view(&self) -> VersionMetaView {
        VersionMetaView {
            semver: self.semver@,
            commit_hash: optional_string(self.commit_hash),
            commit_date: optional_string(self.commit_date),
            build_date: optional_string(self.build_date),
            channel: self.channel,
            host: self.host@,
            short_version_string: self.short_version_string@,
            llvm_version: self.llvm_version,
        }
    }
}

/// The outcome of a parse is the expected one: the same metadata, or an
/// error that says what was expected.
pub open spec fn outcome_is(
    outcome: Result<VersionMeta, Error>,
    expected: Result<VersionMetaView, ErrorView>,
) -> bool {
    match outcome {
        Ok(meta) => expected == Ok::<VersionMetaView, ErrorView>(meta@),
        Err(e) => expected matches Err(view) && e.shows(view),
    }
}

/// The LLVM version that the line after the release tells. Without such a
/// line there is none, which is no error. A line that is there must begin
/// with `LLVM version: ` and go on with the text of an LLVM version; the
/// outer `None` stands for a line that does not.
pub open spec fn llvm_of_line(line: Option<Seq<char>>) -> Option<Option<LLVMVersion>> {
    match line {
        None => Some(None),
        Some(line) => match strip_prefix(line, "LLVM version: "@) {
            None => None,
            Some(token) => match llvm_version_of(token) {
                None => None,
                Some(version) => Some(Some(version)),
            },
        },
    }
}

/// The metadata that the fields of a banner give, once the release has been
/// read as `version`. The channel is decided first, then the LLVM version.
pub open spec fn meta_of(fields: BannerFieldsView, version: VersionView) -> Result<
    VersionMetaView,
    ErrorView,
> {
    match channel_of(version.pre) {
        Err(tag) => Err(ErrorView::UnknownPreReleaseTag(tag)),
        Ok(channel) => match llvm_of_line(fields.llvm_line) {
            None => Err(ErrorView::UnexpectedVersionFormat),
            Some(llvm_version) => Ok(
                VersionMetaView {
                    semver: version,
                    commit_hash: fields.commit_hash,
                    commit_date: fields.commit_date,
                    build_date: fields.build_date,
                    channel,
                    host: fields.host,
                    short_version_string: fields.short_version_string,
                    llvm_version,
                },
            ),
        },
    }
}

/// The metadata that the banner `text` gives, or what it is refused with.
/// The release is read as `version_of` says: by the `semver` crate, unless
/// it would take that crate too deep into an identifier.
pub open spec fn banner_meta(text: Seq<char>) -> Result<VersionMetaView, ErrorView> {
    let lines = split_lines(text);
    if !well_formed(lines) {
        Err(ErrorView::UnexpectedVersionFormat)
    } else {
        match version_of(fields_of(lines).release) {
            Err(refusal) => Err(refusal),
            Ok(version) => meta_of(fields_of(lines), version),
        }
    }
}

/// Text with fewer than six or more than eight lines is refused as not
/// being in the expected format, whatever its lines hold.
pub proof fn lemma_line_count(text: Seq<char>)
    requires
        split_lines(text).len() < 6 || split_lines(text).len() > 8,
    ensures
        banner_meta(text) == Err::<VersionMetaView, ErrorView>(ErrorView::UnexpectedVersionFormat),
{
}

/// A well-formed banner of six lines has neither a build date nor an LLVM
/// version, and it is accepted whenever its release is a semantic version
/// of a known channel.
pub proof fn lemma_six_lines(text: Seq<char>)
    requires
        split_lines(text).len() == 6,
        well_formed(split_lines(text)),
        version_of(fields_of(split_lines(text)).release) matches Ok(version) && channel_of(
            version.pre,
        ) is Ok,
    ensures
        !has_build_date(split_lines(text)),
        banner_meta(text) matches Ok(meta) && meta.build_date is None && meta.llvm_version
            is None,
{
}

/// When a banner is accepted, the short version string is its first line,
/// as it stands.
pub proof fn lemma_short_version_string(text: Seq<char>)
    ensures
        banner_meta(text) matches Ok(meta) ==> meta.short_version_string == split_lines(text)[0],
{
}

/// A commit hash, commit date or build date that reads `unknown` is absent
/// from the metadata, and any other value is there as it stands in the
/// banner.
pub proof fn lemma_unknown_is_absent(text: Seq<char>)
    ensures
        optional_value("unknown"@) is None,
        forall|value: Seq<char>| value != "unknown"@ ==> #[trigger] optional_value(value) == Some(value),
        banner_meta(text) matches Ok(meta) ==> {
            let lines = split_lines(text);
            &&& meta.commit_hash == optional_value(labelled(lines[2], "commit-hash: "@))
            &&& meta.commit_date == optional_value(labelled(lines[3], "commit-date: "@))
            &&& has_build_date(lines) ==> meta.build_date == optional_value(
                labelled(lines[4], "build-date: "@),
            )
            &&& !has_build_date(lines) ==> meta.build_date is None
        },
{
}

/// The channel of accepted metadata is the one that the pre-release tag
/// of the release stands for, and a release with a tag that stands for no
/// channel is refused with that tag: no channel is ever guessed.
pub proof fn lemma_channel_of_release(text: Seq<char>)
    requires
        well_formed(split_lines(text)),
    ensures
        version_of(fields_of(split_lines(text)).release) matches Ok(version) ==> match channel_of(
            version.pre,
        ) {
            Ok(channel) => banner_meta(text) matches Ok(meta) ==> meta.channel == channel
                && meta.semver == version,
            Err(tag) => banner_meta(text) == Err::<VersionMetaView, ErrorView>(
                ErrorView::UnknownPreReleaseTag(tag),
            ),
        },
{
}

/// A release that is not read as a version has the banner refused with
/// what the release was refused with: the error of the `semver` crate goes
/// on as it is, and a release that would take that crate too deep into an
/// identifier is not in the expected format.
pub proof fn lemma_release_refused(text: Seq<char>)
    requires
        well_formed(split_lines(text)),
    ensures
        version_of(fields_of(split_lines(text)).release) matches Err(refusal) ==> banner_meta(text)
            == Err::<VersionMetaView, ErrorView>(refusal),
        too_deep(fields_of(split_lines(text)).release) ==> banner_meta(text) == Err::<
            VersionMetaView,
            ErrorView,
        >(ErrorView::UnexpectedVersionFormat),
        !too_deep(fields_of(split_lines(text)).release) ==> (semver_parsed(
            fields_of(split_lines(text)).release,
        ) matches Err(message) ==> banner_meta(text) == Err::<VersionMetaView, ErrorView>(
            ErrorView::SemVerError(message),
        )),
{
}

/// An owned copy of an optional text.
fn owned(field: Option<&str>) -> (copy: Option<String>)
    ensures
        optional_string(copy) == optional_text(field),
{
    match field {
        Some(text) => Some(text.to_owned()),
        None => None,
    }
}

/// Reads the LLVM version from the line after the release.
fn llvm_version_in(line: Option<&str>) -> (outcome: Result<Option<LLVMVersion>, Error>)
    ensures
        match outcome {
            Ok(version) => llvm_of_line(optional_text(line)) == Some(version),
            Err(e) => llvm_of_line(optional_text(line)) is None && e
                is UnexpectedVersionFormat,
        },
{
    let line = match line {
        Some(line) => line,
        None => {
            return Ok(None);
        },
    };
    let chars = chars_of(line);
    let whole = Span { start: 0, end: chars.len() };
    assert(whole.of(chars@) == line@);
    let token = match span_after_prefix(&chars, whole, "LLVM version: ") {
        Some(rest) => line.substring_char(rest.start, rest.end),
        None => {
            return Err(Error::UnexpectedVersionFormat);
        },
    };
    match LLVMVersion::parse(token) {
        Ok(version) => Ok(Some(version)),
        Err(e) => Err(e),
    }
}

impl VersionMeta {
    /// Puts the metadata together from the fields of a banner and the
    /// version that its release was read as.
    pub fn from_parts(fields: &BannerFields<'_>, version: Version) -> (outcome: Result<
        VersionMeta,
        Error,
    >)
        ensures
            outcome_is(outcome, meta_of(fields@, version@)),
    {
        let channel = match Channel::of_version(&version) {
            Ok(channel) => channel,
            Err(e) => {
                return Err(e);
            },
        };
        let llvm_version = match llvm_version_in(fields.llvm_line) {
            Ok(llvm_version) => llvm_version,
            Err(e) => {
                return Err(e);
            },
        };
        Ok(
            VersionMeta {
                semver: version,
                commit_hash: owned(fields.commit_hash),
                commit_date: owned(fields.commit_date),
                build_date: owned(fields.build_date),
                channel,
                host: fields.host.to_owned(),
                short_version_string: fields.short_version_string.to_owned(),
                llvm_version,
            },
        )
    }
}

/// Parses the output of `rustc -vV` and returns the version of the compiler
/// and additional metadata like the commit hash and the build date.
pub fn version_meta_for(verbose_version_string: &str) -> (outcome: Result<VersionMeta, Error>)
    ensures
        outcome_is(outcome, banner_meta(verbose_version_string@)),
{
    let fields = match banner_fields(verbose_version_string) {
        Ok(fields) => fields,
        Err(e) => {
            return Err(e);
        },
    };
    let version = match Version::parse(fields.release) {
        Ok(version) => version,
        Err(e) => {
            return Err(e);
        },
    };
    VersionMeta::from_parts(&fields, version)
}

} // verus!
