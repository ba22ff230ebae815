//! The version of LLVM that the compiler was built with.
//!
//! LLVM's numbering became a single number with version 4: from there on the
//! minor version is always zero and may be left out, while earlier versions
//! always carry one.

use crate::decimal::{
    component_value, decimal, decimal_text, is_digit, lemma_component_is_decimal,
    lemma_decimal_denotes, parse_component,
};
use crate::errors::Error;
use crate::text::{
    chars_of, lemma_split_joins, lemma_split_nonempty, lemma_split_one, lemma_split_two, spans_of,
    split_on, split_spans,
};
use core::cmp::Ordering;
use vstd::prelude::*;
use vstd::std_specs::cmp::PartialOrdSpec;

verus! {

/// An LLVM version. `rustc` prints the major and the minor version only.
#[derive(Clone, Copy, Debug, Eq, PartialEq, Ord, Hash, Structural)]
pub struct LLVMVersion {
    /// Major version.
    pub major: u64,
    /// Minor version.
    pub minor: u64,
}

impl LLVMVersion {
    /// The version is one that LLVM's numbering allows: from major version 4
    /// on, the minor version is zero.
    pub open spec fn is_valid(self) -> bool {
        self.major >= 4 ==> self.minor == 0
    }

    /// The text of the version: major and minor version with a dot between.
    pub open spec fn text(self) -> Seq<char> {
        decimal(self.major as nat) + seq!['.'] + decimal(self.minor as nat)
    }

    /// `self` comes before `other`: the major version decides, and the minor
    /// version where the major versions are equal.
    pub open spec fn precedes(self, other: LLVMVersion) -> bool {
        self.major < other.major || (self.major == other.major && self.minor < other.minor)
    }
}

/// The LLVM version that `token` denotes, if it denotes one. The token is
/// one or two version components with a dot between. A lone major version
/// must be at least 4; a minor version after a major version of at least 4
/// must be zero.
pub open spec fn llvm_version_of(token: Seq<char>) -> Option<LLVMVersion> {
    let parts = split_on(token, '.');
    if parts.len() > 2 {
        None
    } else {
        match component_value(parts[0]) {
            None => None,
            Some(major) => if parts.len() == 1 {
                if major >= 4 {
                    Some(LLVMVersion { major, minor: 0 })
                } else {
                    None
                }
            } else {
                match component_value(parts[1]) {
                    None => None,
                    Some(minor) => if major >= 4 && minor != 0 {
                        None
                    } else {
                        Some(LLVMVersion { major, minor })
                    },
                }
            },
        }
    }
}

impl LLVMVersion {
    /// Reads an LLVM version from `token`.
    pub fn parse(token: &str) -> (outcome: Result<LLVMVersion, Error>)
        ensures
            match outcome {
                Ok(version) => llvm_version_of(token@) == Some(version) && version.is_valid(),
                Err(e) => llvm_version_of(token@) is None && e is UnexpectedVersionFormat,
            },
    {
        let chars = chars_of(token);
        let parts = split_spans(&chars, '.');
        proof {
            lemma_split_nonempty(chars@, '.');
            assert(spans_of(chars@, parts@).len() == parts.len());
        }
        if parts.len() > 2 {
            return Err(Error::UnexpectedVersionFormat);
        }
        assert(parts@[0].within(chars@));
        assert(spans_of(chars@, parts@)[0] == parts@[0].of(chars@));
        let major = match parse_component(&chars, parts[0]) {
            Some(major) => major,
            None => {
                return Err(Error::UnexpectedVersionFormat);
            },
        };
        if parts.len() == 1 {
            if major < 4 {
                return Err(Error::UnexpectedVersionFormat);
            }
            return Ok(LLVMVersion { major, minor: 0 });
        }
        assert(parts@[1].within(chars@));
        assert(spans_of(chars@, parts@)[1] == parts@[1].of(chars@));
        let minor = match parse_component(&chars, parts[1]) {
            Some(minor) => minor,
            None => {
                return Err(Error::UnexpectedVersionFormat);
            },
        };
        if major >= 4 && minor != 0 {
            return Err(Error::UnexpectedVersionFormat);
        }
        Ok(LLVMVersion { major, minor })
    }

    /// The text of the version, as `Display` would give it.
    pub fn to_string(&self) -> (text: String)
        ensures
            text@ == self.text(),
    {
        let mut text = decimal_text(self.major);
        proof {
            reveal_strlit(".");
        }
        text.append(".");
        assert(text@ == decimal(self.major as nat) + seq!['.']);
        let minor = decimal_text(self.minor);
        text.append(minor.as_str());
        text
    }
}

/// Only valid versions are read from text.
pub proof fn lemma_parsed_is_valid(token: Seq<char>)
    ensures
        llvm_version_of(token) matches Some(version) ==> version.is_valid(),
{
}

/// The text of a valid version reads back as that version.
pub proof fn lemma_text_reads_back(version: LLVMVersion)
    requires
        version.is_valid(),
    ensures
        llvm_version_of(version.text()) == Some(version),
{
    let major = decimal(version.major as nat);
    let minor = decimal(version.minor as nat);
    lemma_decimal_denotes(version.major as nat);
    lemma_decimal_denotes(version.minor as nat);
    lemma_component_is_decimal(major, version.major);
    lemma_component_is_decimal(minor, version.minor);
    assert(!is_digit('.'));
    assert(!major.contains('.'));
    assert(!minor.contains('.'));
    lemma_split_two(major, minor, '.');
}

/// From major version 4 on, the major version alone reads as the version
/// with minor version zero.
pub proof fn lemma_major_alone_reads_back(major: u64)
    requires
        major >= 4,
    ensures
        llvm_version_of(decimal(major as nat)) == Some(LLVMVersion { major, minor: 0 }),
{
    let text = decimal(major as nat);
    lemma_decimal_denotes(major as nat);
    lemma_component_is_decimal(text, major);
    assert(!is_digit('.'));
    assert(!text.contains('.'));
    lemma_split_one(text, '.');
}

/// A token denotes a version exactly when it is the text of a valid version,
/// or the major version alone of one from 4 on.
pub proof fn lemma_tokens_of_version(token: Seq<char>, version: LLVMVersion)
    ensures
        llvm_version_of(token) == Some(version) <==> version.is_valid() && (token
            == version.text() || (version.major >= 4 && token == decimal(version.major as nat))),
{
    if version.is_valid() {
        lemma_text_reads_back(version);
        if version.major >= 4 {
            lemma_major_alone_reads_back(version.major);
        }
    }
    if llvm_version_of(token) == Some(version) {
        let parts = split_on(token, '.');
        lemma_split_joins(token, '.');
        lemma_component_is_decimal(parts[0], version.major);
        if parts.len() == 2 {
            lemma_component_is_decimal(parts[1], version.minor);
        }
    }
}

/// The major version dominates the minor version.
pub proof fn lemma_major_dominates(a: LLVMVersion, b: LLVMVersion)
    requires
        a.major < b.major,
    ensures
        a.precedes(b),
        a.partial_cmp_spec(&b) == Some(Ordering::Less),
{
}

/// Of two versions exactly one holds: the first precedes the second, they
/// are equal, or the second precedes the first; and precedence is transitive.
pub proof fn lemma_precedence_is_total_order(a: LLVMVersion, b: LLVMVersion, c: LLVMVersion)
    ensures
        a.precedes(b) || a == b || b.precedes(a),
        !(a.precedes(b) && b.precedes(a)),
        !a.precedes(a),
        a.precedes(b) && b.precedes(c) ==> a.precedes(c),
{
}

impl PartialOrd for LLVMVersion {
    fn partial_cmp(&self, other: &LLVMVersion) -> (order: Option<Ordering>) {
        if self.major < other.major {
            Some(Ordering::Less)
        } else if self.major > other.major {
            Some(Ordering::Greater)
        } else if self.minor < other.minor {
            Some(Ordering::Less)
        } else if self.minor > other.minor {
            Some(Ordering::Greater)
        } else {
            Some(Ordering::Equal)
        }
    }
}

impl vstd::std_specs::cmp::PartialOrdSpecImpl for LLVMVersion {
    open spec fn obeys_partial_cmp_spec() -> bool {
        true
    }

    open spec fn partial_cmp_spec(&self, other: &LLVMVersion) -> Option<Ordering> {
        if self.precedes(*other) {
            Some(Ordering::Less)
        } else if other.precedes(*self) {
            Some(Ordering::Greater)
        } else {
            Some(Ordering::Equal)
        }
    }
}

} // verus!
