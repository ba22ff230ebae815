//! The release channel of the compiler.

use crate::errors::{Error, ErrorView};
use crate::text::same_text;
use crate::version::{Identifier, IdentifierView, Version};
use core::cmp::Ordering;
use vstd::prelude::*;
use vstd::std_specs::cmp::PartialOrdSpec;

verus! {

/// Release channel of the compiler. The channels are ordered from the least
/// to the most stable one.
#[derive(Copy, Clone, Eq, PartialEq, Ord, Hash, Debug, Structural)]
pub enum Channel {
    /// Development release channel
    Dev,
    /// Nightly release channel
    Nightly,
    /// Beta release channel
    Beta,
    /// Stable release channel
    Stable,
}

impl Channel {
    /// The place of the channel in the order of channels.
    pub open spec fn rank(self) -> int {
        match self {
            Channel::Dev => 0,
            Channel::Nightly => 1,
            Channel::Beta => 2,
            Channel::Stable => 3,
        }
    }
}

/// The channel that a pre-release tag stands for, or the identifier that
/// stands for none. A version without a pre-release tag is stable. Otherwise
/// the first identifier alone decides, and it must be one of the words
/// `dev`, `beta` and `nightly`.
pub open spec fn channel_of(pre: Seq<IdentifierView>) -> Result<Channel, IdentifierView> {
    if pre.len() == 0 {
        Ok(Channel::Stable)
    } else {
        match pre[0] {
            IdentifierView::AlphaNumeric(word) => if word == "dev"@ {
                Ok(Channel::Dev)
            } else if word == "beta"@ {
                Ok(Channel::Beta)
            } else if word == "nightly"@ {
                Ok(Channel::Nightly)
            } else {
                Err(pre[0])
            },
            IdentifierView::Numeric(_) => Err(pre[0]),
        }
    }
}

impl Channel {
    /// The channel of a version, from its pre-release tag.
    pub fn of_version(version: &Version) -> (outcome: Result<Channel, Error>)
        ensures
            match outcome {
                Ok(channel) => channel_of(version@.pre) == Ok::<Channel, IdentifierView>(channel),
                Err(e) => channel_of(version@.pre) matches Err(tag) && e.shows(
                    ErrorView::UnknownPreReleaseTag(tag),
                ),
            },
    {
        if version.pre.len() == 0 {
            return Ok(Channel::Stable);
        }
        let first = &version.pre[0];
        assert(version@.pre[0] == first@);
        match first {
            Identifier::AlphaNumeric(word) => {
                if same_text(word.as_str(), "dev") {
                    Ok(Channel::Dev)
                } else if same_text(word.as_str(), "beta") {
                    Ok(Channel::Beta)
                } else if same_text(word.as_str(), "nightly") {
                    Ok(Channel::Nightly)
                } else {
                    Err(Error::UnknownPreReleaseTag(first.duplicate()))
                }
            },
            Identifier::Numeric(_) => Err(Error::UnknownPreReleaseTag(first.duplicate())),
        }
    }
}

/// The channel goes by the first identifier of the pre-release tag: `dev`,
/// `beta` and `nightly` stand for their channels, no tag at all stands for
/// the stable channel, and any other first identifier is refused and handed
/// back. No other identifier of the tag has a say.
pub proof fn lemma_channel_by_first_identifier(pre: Seq<IdentifierView>)
    ensures
        pre.len() == 0 ==> channel_of(pre) == Ok::<Channel, IdentifierView>(Channel::Stable),
        pre.len() > 0 && pre[0] == IdentifierView::AlphaNumeric("dev"@) ==> channel_of(pre) == Ok::<
            Channel,
            IdentifierView,
        >(Channel::Dev),
        pre.len() > 0 && pre[0] == IdentifierView::AlphaNumeric("beta"@) ==> channel_of(pre)
            == Ok::<Channel, IdentifierView>(Channel::Beta),
        pre.len() > 0 && pre[0] == IdentifierView::AlphaNumeric("nightly"@) ==> channel_of(pre)
            == Ok::<Channel, IdentifierView>(Channel::Nightly),
        pre.len() > 0 && pre[0] != IdentifierView::AlphaNumeric("dev"@) && pre[0]
            != IdentifierView::AlphaNumeric("beta"@) && pre[0] != IdentifierView::AlphaNumeric(
            "nightly"@,
        ) ==> channel_of(pre) == Err::<Channel, IdentifierView>(pre[0]),
        pre.len() > 0 ==> channel_of(pre) == channel_of(seq![pre[0]]),
{
    reveal_strlit("dev");
    reveal_strlit("beta");
    reveal_strlit("nightly");
    if pre.len() > 0 {
        assert(seq![pre[0]][0] == pre[0]);
        assert("dev"@.len() != "beta"@.len());
        assert("dev"@.len() != "nightly"@.len());
        assert("beta"@.len() != "nightly"@.len());
    }
}

/// The order of the channels: development, nightly, beta, stable.
pub proof fn lemma_channel_order()
    ensures
        Channel::Dev.rank() < Channel::Nightly.rank() < Channel::Beta.rank()
            < Channel::Stable.rank(),
        forall|a: Channel, b: Channel| a.rank() == b.rank() ==> a == b,
        forall|a: Channel, b: Channel|
            (#[trigger] a.partial_cmp_spec(&b) == Some(Ordering::Less)) <==> a.rank() < b.rank(),
{
}

impl PartialOrd for Channel {
    fn partial_cmp(&self, other: &Channel) -> (order: Option<Ordering>) {
        let left: u8 = match self {
            Channel::Dev => 0,
            Channel::Nightly => 1,
            Channel::Beta => 2,
            Channel::Stable => 3,
        };
        let right: u8 = match other {
            Channel::Dev => 0,
            Channel::Nightly => 1,
            Channel::Beta => 2,
            Channel::Stable => 3,
        };
        if left < right {
            Some(Ordering::Less)
        } else if left > right {
            Some(Ordering::Greater)
        } else {
            Some(Ordering::Equal)
        }
    }
}

impl vstd::std_specs::cmp::PartialOrdSpecImpl for Channel {
    open spec fn obeys_partial_cmp_spec() -> bool {
        true
    }

    open spec fn partial_cmp_spec(&self, other: &Channel) -> Option<Ordering> {
        if self.rank() < other.rank() {
            Some(Ordering::Less)
        } else if self.rank() > other.rank() {
            Some(Ordering::Greater)
        } else {
            Some(Ordering::Equal)
        }
    }
}

} // verus!
