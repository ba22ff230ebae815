//! The errors of this crate.

use crate::version::{Identifier, IdentifierView};
use vstd::string::to_string_from_display_ensures;
use vstd::prelude::*;

verus! {

/// `std::io::Error`, carried as it is: nothing is claimed of what it holds.
#[verifier::external_type_specification]
#[verifier::external_body]
pub struct ExIoError(std::io::Error);

/// `std::str::Utf8Error`, carried as it is.
#[verifier::external_type_specification]
#[verifier::external_body]
pub struct ExUtf8Error(std::str::Utf8Error);

/// `std::num::ParseIntError`, carried as it is.
#[verifier::external_type_specification]
#[verifier::external_body]
pub struct ExParseIntError(std::num::ParseIntError);

/// `semver::SemVerError`, the error of `semver::Version::parse`, carried as
/// it is.
#[verifier::external_type_specification]
#[verifier::external_body]
pub struct ExSemVerError(semver::SemVerError);

/// `semver::ReqParseError`, the error of `semver::VersionReq::parse`,
/// carried as it is.
#[verifier::external_type_specification]
#[verifier::external_body]
pub struct ExReqParseError(semver::ReqParseError);

/// What is wrong with the text of an LLVM version.
#[derive(Debug)]
pub enum LlvmVersionParseError {
    /// A version component could not be read as an integer.
    ParseIntError(std::num::ParseIntError),
    /// A version component must not have leading zeros.
    ComponentMustNotHaveLeadingZeros,
    /// A version component has a sign.
    ComponentMustNotHaveSign,
    /// The minor version must be zero from LLVM 4.0 on.
    MinorVersionMustBeZeroAfter4,
    /// The minor version is required before LLVM 4.0.
    MinorVersionRequiredBefore4,
    /// Too many components.
    TooManyComponents,
}

/// The error type of this crate.
#[derive(Debug)]
pub enum Error {
    /// The `rustc` command could not be executed.
    CouldNotExecuteCommand(std::io::Error),
    /// The output of `rustc -vV` was not valid UTF-8.
    Utf8Error(std::str::Utf8Error),
    /// The output of `rustc -vV` was not in the expected format.
    UnexpectedVersionFormat,
    /// A version requirement could not be parsed.
    ReqParseError(semver::ReqParseError),
    /// The semantic version could not be parsed.
    SemVerError(semver::SemVerError),
    /// The pre-release tag is unknown.
    UnknownPreReleaseTag(Identifier),
    /// The LLVM version could not be parsed.
    LlvmVersionError(LlvmVersionParseError),
}

/// The error of another library that an [`Error`] carries.
#[derive(Clone, Copy, Debug)]
pub enum Cause<'a> {
    /// The command could not be executed.
    Io(&'a std::io::Error),
    /// The output was not valid UTF-8.
    Utf8(&'a std::str::Utf8Error),
    /// A version requirement could not be parsed.
    ReqParse(&'a semver::ReqParseError),
    /// A semantic version could not be parsed.
    SemVer(&'a semver::SemVerError),
    /// An LLVM version could not be parsed.
    LlvmVersion(&'a LlvmVersionParseError),
}

impl LlvmVersionParseError {
    /// The error that lies under this one, if there is one.
    pub open spec fn cause(&self) -> Option<&std::num::ParseIntError> {
        match self {
            LlvmVersionParseError::ParseIntError(e) => Some(e),
            _ => None,
        }
    }

    /// The message of the error, where `cause` is the message of the error
    /// that lies under it.
    pub open spec fn message(&self, cause: Seq<char>) -> Seq<char> {
        match self {
            LlvmVersionParseError::ParseIntError(_) => "error parsing LLVM version component: "@
                + cause,
            LlvmVersionParseError::ComponentMustNotHaveLeadingZeros =>
                "a version component must not have leading zeros"@,
            LlvmVersionParseError::ComponentMustNotHaveSign =>
                "a version component must not have a sign"@,
            LlvmVersionParseError::MinorVersionMustBeZeroAfter4 =>
                "LLVM's minor version component must be 0 for versions greater than 4.0"@,
            LlvmVersionParseError::MinorVersionRequiredBefore4 =>
                "LLVM's minor version component is required for versions less than 4.0"@,
            LlvmVersionParseError::TooManyComponents => "too many version components"@,
        }
    }

    /// `cause` is the message that the error under this one gives of
    /// itself. Where there is no such error, any text will do.
    pub open spec fn caused_by(&self, cause: String) -> bool {
        match self {
            LlvmVersionParseError::ParseIntError(e) => to_string_from_display_ensures::<
                std::num::ParseIntError,
            >(e, cause),
            _ => true,
        }
    }

    /// The error that lies under this one, if there is one.
    pub fn source(&self) -> (cause: Option<&std::num::ParseIntError>)
        ensures
            cause == self.cause(),
    {
        match self {
            LlvmVersionParseError::ParseIntError(e) => Some(e),
            _ => None,
        }
    }

    /// The message of the error, as `Display` would give it.
    pub fn to_string(&self) -> (text: String)
        ensures
            exists|cause: String| #[trigger] self.caused_by(cause) && text@ == self.message(cause@),
    {
        match self {
            LlvmVersionParseError::ParseIntError(e) => {
                let cause = e.to_string();
                let mut text = "error parsing LLVM version component: ".to_owned();
                text.append(cause.as_str());
                assert(self.caused_by(cause) && text@ == self.message(cause@));
                text
            },
            LlvmVersionParseError::ComponentMustNotHaveLeadingZeros => {
                let text = "a version component must not have leading zeros".to_owned();
                assert(self.caused_by(text) && text@ == self.message(text@));
                text
            },
            LlvmVersionParseError::ComponentMustNotHaveSign => {
                let text = "a version component must not have a sign".to_owned();
                assert(self.caused_by(text) && text@ == self.message(text@));
                text
            },
            LlvmVersionParseError::MinorVersionMustBeZeroAfter4 => {
                let text =
                    "LLVM's minor version component must be 0 for versions greater than 4.0".to_owned();
                assert(self.caused_by(text) && text@ == self.message(text@));
                text
            },
            LlvmVersionParseError::MinorVersionRequiredBefore4 => {
                let text =
                    "LLVM's minor version component is required for versions less than 4.0".to_owned();
                assert(self.caused_by(text) && text@ == self.message(text@));
                text
            },
            LlvmVersionParseError::TooManyComponents => {
                let text = "too many version components".to_owned();
                assert(self.caused_by(text) && text@ == self.message(text@));
                text
            },
        }
    }
}

impl From<std::num::ParseIntError> for LlvmVersionParseError {
    fn from(e: std::num::ParseIntError) -> (error: LlvmVersionParseError) {
        LlvmVersionParseError::ParseIntError(e)
    }
}

impl vstd::std_specs::convert::FromSpecImpl<std::num::ParseIntError> for LlvmVersionParseError {
    open spec fn obeys_from_spec() -> bool {
        true
    }

    open spec fn from_spec(e: std::num::ParseIntError) -> LlvmVersionParseError {
        LlvmVersionParseError::ParseIntError(e)
    }
}

/// What an [`Error`] says. The error of another library that it may carry
/// is stood for by the message that this error gives of itself.
pub enum ErrorView {
    CouldNotExecuteCommand(Seq<char>),
    Utf8Error(Seq<char>),
    UnexpectedVersionFormat,
    ReqParseError(Seq<char>),
    SemVerError(Seq<char>),
    UnknownPreReleaseTag(IdentifierView),
    LlvmVersionError(Seq<char>),
}

impl Error {
    /// The error of another library that this one carries, if it carries
    /// one.
    pub open spec fn cause(&self) -> Option<Cause<'_>> {
        match self {
            Error::CouldNotExecuteCommand(e) => Some(Cause::Io(e)),
            Error::Utf8Error(e) => Some(Cause::Utf8(e)),
            Error::UnexpectedVersionFormat => None,
            Error::ReqParseError(e) => Some(Cause::ReqParse(e)),
            Error::SemVerError(e) => Some(Cause::SemVer(e)),
            Error::UnknownPreReleaseTag(_) => None,
            Error::LlvmVersionError(e) => Some(Cause::LlvmVersion(e)),
        }
    }

    /// The message of the error, where `cause` is the message of the error
    /// of another library that lies under it.
    pub open spec fn message(&self, cause: Seq<char>) -> Seq<char> {
        match self {
            Error::CouldNotExecuteCommand(_) => "could not execute command: "@ + cause,
            Error::Utf8Error(_) => "invalid UTF-8 output from `rustc -vV`"@,
            Error::UnexpectedVersionFormat => "unexpected `rustc -vV` format"@,
            Error::ReqParseError(_) => "error parsing version requirement: "@ + cause,
            Error::SemVerError(_) => "error parsing version: "@ + cause,
            Error::UnknownPreReleaseTag(tag) => "unknown pre-release tag: "@ + tag@.text(),
            Error::LlvmVersionError(e) => "error parsing LLVM's version: "@ + e.message(cause),
        }
    }

    /// `cause` is the message that the error of another library under this
    /// one gives of itself. Where there is no such error, any text will do.
    pub open spec fn caused_by(&self, cause: String) -> bool {
        match self {
            Error::CouldNotExecuteCommand(e) => to_string_from_display_ensures::<std::io::Error>(
                e,
                cause,
            ),
            Error::ReqParseError(e) => to_string_from_display_ensures::<semver::ReqParseError>(
                e,
                cause,
            ),
            Error::SemVerError(e) => to_string_from_display_ensures::<semver::SemVerError>(
                e,
                cause,
            ),
            Error::LlvmVersionError(e) => e.caused_by(cause),
            _ => true,
        }
    }

    /// The error says `view`: it is of that kind, and the error that it
    /// carries gives the message that `view` holds.
    pub open spec fn shows(&self, view: ErrorView) -> bool {
        match self {
            Error::CouldNotExecuteCommand(e) => exists|message: String| #[trigger]
                to_string_from_display_ensures::<std::io::Error>(e, message) && view
                    == ErrorView::CouldNotExecuteCommand(message@),
            Error::Utf8Error(e) => exists|message: String| #[trigger]
                to_string_from_display_ensures::<std::str::Utf8Error>(e, message) && view
                    == ErrorView::Utf8Error(message@),
            Error::UnexpectedVersionFormat => view == ErrorView::UnexpectedVersionFormat,
            Error::ReqParseError(e) => exists|message: String| #[trigger]
                to_string_from_display_ensures::<semver::ReqParseError>(e, message) && view
                    == ErrorView::ReqParseError(message@),
            Error::SemVerError(e) => exists|message: String| #[trigger]
                to_string_from_display_ensures::<semver::SemVerError>(e, message) && view
                    == ErrorView::SemVerError(message@),
            Error::UnknownPreReleaseTag(tag) => view == ErrorView::UnknownPreReleaseTag(tag@),
            Error::LlvmVersionError(e) => exists|cause: String| #[trigger]
                e.caused_by(cause) && view == ErrorView::LlvmVersionError(e.message(cause@)),
        }
    }

    /// The error of another library that this one carries, if it carries
    /// one.
    pub fn source(&self) -> (cause: Option<Cause<'_>>)
        ensures
            cause == self.cause(),
    {
        match self {
            Error::CouldNotExecuteCommand(e) => Some(Cause::Io(e)),
            Error::Utf8Error(e) => Some(Cause::Utf8(e)),
            Error::UnexpectedVersionFormat => None,
            Error::ReqParseError(e) => Some(Cause::ReqParse(e)),
            Error::SemVerError(e) => Some(Cause::SemVer(e)),
            Error::UnknownPreReleaseTag(_) => None,
            Error::LlvmVersionError(e) => Some(Cause::LlvmVersion(e)),
        }
    }

    /// The message of the error, as `Display` would give it.
    pub fn to_string(&self) -> (text: String)
        ensures
            exists|cause: String| #[trigger] self.caused_by(cause) && text@ == self.message(cause@),
    {
        match self {
            Error::CouldNotExecuteCommand(e) => {
                let cause = e.to_string();
                let mut text = "could not execute command: ".to_owned();
                text.append(cause.as_str());
                assert(self.caused_by(cause) && text@ == self.message(cause@));
                text
            },
            Error::Utf8Error(_) => {
                let text = "invalid UTF-8 output from `rustc -vV`".to_owned();
                assert(self.caused_by(text) && text@ == self.message(text@));
                text
            },
            Error::UnexpectedVersionFormat => {
                let text = "unexpected `rustc -vV` format".to_owned();
                assert(self.caused_by(text) && text@ == self.message(text@));
                text
            },
            Error::ReqParseError(e) => {
                let cause = e.to_string();
                let mut text = "error parsing version requirement: ".to_owned();
                text.append(cause.as_str());
                assert(self.caused_by(cause) && text@ == self.message(cause@));
                text
            },
            Error::SemVerError(e) => {
                let cause = e.to_string();
                let mut text = "error parsing version: ".to_owned();
                text.append(cause.as_str());
                assert(self.caused_by(cause) && text@ == self.message(cause@));
                text
            },
            Error::UnknownPreReleaseTag(tag) => {
                let tag_text = tag.to_string();
                let mut text = "unknown pre-release tag: ".to_owned();
                text.append(tag_text.as_str());
                assert(self.caused_by(text) && text@ == self.message(text@));
                text
            },
            Error::LlvmVersionError(e) => {
                let inner = e.to_string();
                let ghost cause = choose|cause: String| #[trigger]
                    e.caused_by(cause) && inner@ == e.message(cause@);
                let mut text = "error parsing LLVM's version: ".to_owned();
                text.append(inner.as_str());
                assert(self.caused_by(cause) && text@ == self.message(cause@));
                text
            },
        }
    }
}

impl From<std::str::Utf8Error> for Error {
    fn from(e: std::str::Utf8Error) -> (error: Error) {
        Error::Utf8Error(e)
    }
}

impl vstd::std_specs::convert::FromSpecImpl<std::str::Utf8Error> for Error {
    open spec fn obeys_from_spec() -> bool {
        true
    }

    open spec fn from_spec(e: std::str::Utf8Error) -> Error {
        Error::Utf8Error(e)
    }
}

impl From<semver::SemVerError> for Error {
    fn from(e: semver::SemVerError) -> (error: Error) {
        Error::SemVerError(e)
    }
}

impl vstd::std_specs::convert::FromSpecImpl<semver::SemVerError> for Error {
    open spec fn obeys_from_spec() -> bool {
        true
    }

    open spec fn from_spec(e: semver::SemVerError) -> Error {
        Error::SemVerError(e)
    }
}

impl From<semver::ReqParseError> for Error {
    fn from(e: semver::ReqParseError) -> (error: Error) {
        Error::ReqParseError(e)
    }
}

impl vstd::std_specs::convert::FromSpecImpl<semver::ReqParseError> for Error {
    open spec fn obeys_from_spec() -> bool {
        true
    }

    open spec fn from_spec(e: semver::ReqParseError) -> Error {
        Error::ReqParseError(e)
    }
}

impl From<LlvmVersionParseError> for Error {
    fn from(e: LlvmVersionParseError) -> (error: Error) {
        Error::LlvmVersionError(e)
    }
}

impl vstd::std_specs::convert::FromSpecImpl<LlvmVersionParseError> for Error {
    open spec fn obeys_from_spec() -> bool {
        true
    }

    open spec fn from_spec(e: LlvmVersionParseError) -> Error {
        Error::LlvmVersionError(e)
    }
}

} // verus!
