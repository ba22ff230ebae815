//! Semantic versions, as the `semver` crate reads them.

use crate::decimal::{decimal, decimal_text};
use crate::errors::{Error, ErrorView};
use crate::depth::{is_too_deep, too_deep};
use vstd::prelude::*;
use vstd::string::to_string_from_display_ensures;

verus! {

/// One identifier of a pre-release tag or of build metadata.
#[derive(Clone, Debug, PartialEq, Eq, Hash)]
pub enum Identifier {
    /// An identifier made of digits only.
    Numeric(u64),
    /// An identifier with letters in it.
    AlphaNumeric(String),
}

/// What an [`Identifier`] holds.
pub enum IdentifierView {
    Numeric(u64),
    AlphaNumeric(Seq<char>),
}

impl View for Identifier {
    type V = IdentifierView;

    open spec fn view(&self) -> IdentifierView {
        match self {
            Identifier::Numeric(n) => IdentifierView::Numeric(*n),
            Identifier::AlphaNumeric(s) => IdentifierView::AlphaNumeric(s@),
        }
    }
}

impl IdentifierView {
    /// The text of the identifier: a number written canonically, or the
    /// word itself.
    pub open spec fn text(self) -> Seq<char> {
        match self {
            IdentifierView::Numeric(n) => decimal(n as nat),
            IdentifierView::AlphaNumeric(word) => word,
        }
    }
}

impl Identifier {
    /// The text of the identifier, as `Display` would give it.
    pub fn to_string(&self) -> (text: String)
        ensures
            text@ == self@.text(),
    {
        match self {
            Identifier::Numeric(n) => decimal_text(*n),
            Identifier::AlphaNumeric(word) => word.clone(),
        }
    }

    /// A copy of the identifier.
    pub fn duplicate(&self) -> (copy: Identifier)
        ensures
            copy@ == self@,
    {
        match self {
            Identifier::Numeric(n) => Identifier::Numeric(*n),
            Identifier::AlphaNumeric(s) => Identifier::AlphaNumeric(s.clone()),
        }
    }
}

/// A semantic version.
///
/// Two versions are equal when all their fields are, the build metadata
/// among them, and they are hashed in the same way. The `semver` crate
/// leaves the build metadata out of both: to it, `1.0.0+a` and `1.0.0+b`
/// are equal. [`Version::same_release`] compares in that way.
#[derive(Clone, Debug, PartialEq, Eq, Hash)]
pub struct Version {
    /// The major version.
    pub major: u64,
    /// The minor version.
    pub minor: u64,
    /// The patch version.
    pub patch: u64,
    /// The identifiers of the pre-release tag; empty for a release.
    pub pre: Vec<Identifier>,
    /// The identifiers of the build metadata.
    pub build: Vec<Identifier>,
}

/// What a [`Version`] holds.
pub struct VersionView {
    pub major: u64,
    pub minor: u64,
    pub patch: u64,
    pub pre: Seq<IdentifierView>,
    pub build: Seq<IdentifierView>,
}

impl View for Version {
    type V = VersionView;

    open spec fn view(&self) -> VersionView {
        VersionView {
            major: self.major,
            minor: self.minor,
            patch: self.patch,
            pre: self.pre@.map_values(|i: Identifier| i@),
            build: self.build@.map_values(|i: Identifier| i@),
        }
    }
}

/// What `semver::Version::parse` makes of `text`: the version that it
/// reads, or the message of the error that it reports.
pub uninterp spec fn semver_parsed(text: Seq<char>) -> Result<VersionView, Seq<char>>;

/// The version that `text` is read as, or what it is refused with. Text
/// that would take the `semver` crate too deep into an identifier is
/// refused as not being in the expected format: that crate has no answer
/// for it. Other text is what the `semver` crate makes of it.
pub open spec fn version_of(text: Seq<char>) -> Result<VersionView, ErrorView> {
    if too_deep(text) {
        Err(ErrorView::UnexpectedVersionFormat)
    } else {
        match semver_parsed(text) {
            Ok(version) => Ok(version),
            Err(message) => Err(ErrorView::SemVerError(message)),
        }
    }
}

/// Calls `semver::Version::parse` and copies the fields of the version it
/// returns, identifier by identifier. The contract claims that the outcome
/// is a function of the text, the one named `semver_parsed`: the version
/// read, or the message that the error gives of itself. Text that is
/// `too_deep` is kept away: on it, and on no other text, the parser panics,
/// in `bounded_identifier`, when it gets more than 255 hyphens into one
/// identifier.
#[verifier::external_body]
pub(crate) fn semver_parse(text: &str) -> (outcome: Result<Version, semver::SemVerError>)
    requires
        !too_deep(text@),
    ensures
        match outcome {
            Ok(version) => semver_parsed(text@) == Ok::<VersionView, Seq<char>>(version@),
            Err(e) => exists|message: String| #[trigger]
                to_string_from_display_ensures::<semver::SemVerError>(&e, message)
                    && semver_parsed(text@) == Err::<VersionView, Seq<char>>(message@),
        },
{
    let v = semver::Version::parse(text)?;
    let plain = |i| match i {
        semver::Identifier::Numeric(n) => Identifier::Numeric(n),
        semver::Identifier::AlphaNumeric(s) => Identifier::AlphaNumeric(s),
    };
    Ok(Version {
        major: v.major,
        minor: v.minor,
        patch: v.patch,
        pre: v.pre.into_iter().map(plain).collect(),
        build: v.build.into_iter().map(plain).collect(),
    })
}

impl Version {
    /// Whether two versions are the same but for their build metadata.
    pub fn same_release(&self, other: &Version) -> (same: bool)
        ensures
            same == (self.major == other.major && self.minor == other.minor && self.patch
                == other.patch && self@.pre == other@.pre),
    {
        proof {
            assert(self@.pre.len() == self.pre.len());
            assert(other@.pre.len() == other.pre.len());
        }
        if self.major != other.major || self.minor != other.minor || self.patch != other.patch
            || self.pre.len() != other.pre.len() {
            return false;
        }
        let mut k: usize = 0;
        while k < self.pre.len()
            invariant
                self.pre.len() == other.pre.len(),
                k <= self.pre.len(),
                forall|j: int| 0 <= j < k ==> self.pre@[j]@ == other.pre@[j]@,
            decreases self.pre.len() - k,
        {
            let same = match (&self.pre[k], &other.pre[k]) {
                (Identifier::Numeric(a), Identifier::Numeric(b)) => *a == *b,
                (Identifier::AlphaNumeric(a), Identifier::AlphaNumeric(b)) => *a == *b,
                _ => false,
            };
            if !same {
                assert(self@.pre[k as int] != other@.pre[k as int]);
                return false;
            }
            k += 1;
        }
        assert(self@.pre =~= other@.pre);
        true
    }

    /// Reads a semantic version from `text`.
    pub fn parse(text: &str) -> (outcome: Result<Version, Error>)
        ensures
            match outcome {
                Ok(version) => version_of(text@) == Ok::<VersionView, ErrorView>(version@),
                Err(e) => version_of(text@) matches Err(view) && e.shows(view),
            },
    {
        if is_too_deep(text) {
            return Err(Error::UnexpectedVersionFormat);
        }
        match semver_parse(text) {
            Ok(version) => Ok(version),
            Err(e) => {
                let ghost message = choose|message: String| #[trigger]
                    to_string_from_display_ensures::<semver::SemVerError>(&e, message)
                        && semver_parsed(text@) == Err::<VersionView, Seq<char>>(message@);
                let error = Error::SemVerError(e);
                assert(error.shows(ErrorView::SemVerError(message@))) by {
                    assert(to_string_from_display_ensures::<semver::SemVerError>(
                        &error->SemVerError_0,
                        message,
                    ));
                }
                Err(error)
            },
        }
    }
}

} // verus!
