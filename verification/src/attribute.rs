//! The two hardware attributes that the daemon exposes.

use vstd::prelude::*;
use crate::text::{is_word, same_text};

verus! {

/// A hardware attribute of the host, backed by a file that the kernel
/// exposes.
#[derive(Clone, Copy, Debug, PartialEq, Eq, Structural)]
pub enum Attribute {
    /// The percentage at which the battery stops charging.
    BatteryThreshold,
    /// The platform profile.
    Profile,
}

impl Attribute {
    /// The word that names the attribute in a request and in the response to
    /// a read.
    pub open spec fn spec_name(self) -> Seq<char> {
        match self {
            Attribute::BatteryThreshold => "battery-threshold"@,
            Attribute::Profile => "profile"@,
        }
    }

    /// The path of the file that backs the attribute.
    pub open spec fn spec_path(self) -> Seq<char> {
        match self {
            Attribute::BatteryThreshold =>
                "/sys/class/power_supply/BAT0/charge_control_end_threshold"@,
            Attribute::Profile => "/sys/firmware/acpi/platform_profile"@,
        }
    }

    /// The attribute that `t` names, character for character.
    pub open spec fn named(t: Seq<char>) -> Option<Attribute> {
        if t == "battery-threshold"@ {
            Some(Attribute::BatteryThreshold)
        } else if t == "profile"@ {
            Some(Attribute::Profile)
        } else {
            None
        }
    }

    /// Returns the word that names the attribute.
    pub fn name(&self) -> (s: &'static str)
        ensures
            s@ == self.spec_name(),
    {
        match self {
            Attribute::BatteryThreshold => "battery-threshold",
            Attribute::Profile => "profile",
        }
    }

    /// Returns the path of the file that backs the attribute.
    pub fn path(&self) -> (s: &'static str)
        ensures
            s@ == self.spec_path(),
    {
        match self {
            Attribute::BatteryThreshold =>
                "/sys/class/power_supply/BAT0/charge_control_end_threshold",
            Attribute::Profile => "/sys/firmware/acpi/platform_profile",
        }
    }

    /// Returns the attribute that `t` names, if it names one.
    pub fn from_name(t: &str) -> (r: Option<Attribute>)
        ensures
            r == Self::named(t@),
    {
        if same_text(t, "battery-threshold") {
            Some(Attribute::BatteryThreshold)
        } else if same_text(t, "profile") {
            Some(Attribute::Profile)
        } else {
            None
        }
    }

    /// Each name names the attribute it belongs to, and is a word: it is
    /// not empty and holds no white space.
    pub proof fn lemma_name_names_attribute(self)
        ensures
            Self::named(self.spec_name()) == Some(self),
            is_word(self.spec_name()),
    {
        reveal_strlit("battery-threshold");
        reveal_strlit("profile");
    }
}

} // verus!
