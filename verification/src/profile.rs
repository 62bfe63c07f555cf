//! The platform profiles and their canonical tokens.

use vstd::prelude::*;
use crate::text::{is_word, same_text};

verus! {

/// A power/performance operating mode of the host device.
#[derive(Clone, Copy, Debug, PartialEq, Eq, Structural)]
pub enum PlatformProfile {
    Quiet,
    Balanced,
    Performance,
}

impl PlatformProfile {
    /// The canonical token of the profile: the lowercase word that names it
    /// on the wire and in the hardware attribute.
    pub open spec fn token(self) -> Seq<char> {
        match self {
            PlatformProfile::Quiet => "quiet"@,
            PlatformProfile::Balanced => "balanced"@,
            PlatformProfile::Performance => "performance"@,
        }
    }

    /// The profile that `t` names: the one whose canonical token `t` is,
    /// character for character.
    pub open spec fn named(t: Seq<char>) -> Option<PlatformProfile> {
        if t == "quiet"@ {
            Some(PlatformProfile::Quiet)
        } else if t == "balanced"@ {
            Some(PlatformProfile::Balanced)
        } else if t == "performance"@ {
            Some(PlatformProfile::Performance)
        } else {
            None
        }
    }

    /// Returns the canonical token of the profile.
    pub fn as_str(&self) -> (s: &'static str)
        ensures
            s@ == self.token(),
    {
        match self {
            PlatformProfile::Quiet => "quiet",
            PlatformProfile::Balanced => "balanced",
            PlatformProfile::Performance => "performance",
        }
    }

    /// Returns the profile that `t` names, if it names one.
    pub fn from_token(t: &str) -> (r: Option<PlatformProfile>)
        ensures
            r == Self::named(t@),
    {
        if same_text(t, "quiet") {
            Some(PlatformProfile::Quiet)
        } else if same_text(t, "balanced") {
            Some(PlatformProfile::Balanced)
        } else if same_text(t, "performance") {
            Some(PlatformProfile::Performance)
        } else {
            None
        }
    }

    /// Each canonical token names the profile it belongs to, and is a word:
    /// it is not empty and holds no white space.
    pub proof fn lemma_token_names_profile(self)
        ensures
            Self::named(self.token()) == Some(self),
            is_word(self.token()),
    {
        reveal_strlit("quiet");
        reveal_strlit("balanced");
        reveal_strlit("performance");
    }

    /// A text names a profile only if it is that profile's canonical token.
    pub proof fn lemma_named_is_token(t: Seq<char>)
        ensures
            Self::named(t) matches Some(p) ==> t == p.token(),
    {
    }
}

} // verus!
