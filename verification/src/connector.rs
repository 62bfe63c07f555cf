//! The hardware connector's rules: which values may reach a backing file,
//! the text that is written for them, and how a failed file access is
//! described. The file access itself is the caller's.

use vstd::prelude::*;
use crate::attribute::Attribute;
use crate::command::Verb;
use crate::number::{decimal, to_decimal};

verus! {

/// The lowest battery threshold that is accepted.
pub const THRESHOLD_MIN: i32 = 0;

/// The highest battery threshold that is accepted.
pub const THRESHOLD_MAX: i32 = 100;

/// Whether `value` is a battery threshold that may be written: a percentage
/// from 0 to 100.
pub open spec fn valid_threshold(value: int) -> bool {
    THRESHOLD_MIN <= value <= THRESHOLD_MAX
}

/// Why a value that was read from a request is not written.
#[derive(Clone, Copy, Debug, PartialEq, Eq, Structural)]
pub enum ValidationError {
    /// The battery threshold, kept here, is not a percentage from 0 to 100.
    ThresholdOutOfRange(i32),
}

impl ValidationError {
    /// The description of the failure, as a response reports it.
    pub open spec fn spec_message(self) -> Seq<char> {
        "threshold out of range (0-100)"@
    }

    /// Returns the description of the failure.
    pub fn message(&self) -> (r: String)
        ensures
            r@ == self.spec_message(),
    {
        String::from_str("threshold out of range (0-100)")
    }
}

/// The text that is written to the backing file for the battery threshold
/// `value`, or why nothing is written.
pub open spec fn threshold_text(value: i32) -> Result<Seq<char>, ValidationError> {
    if valid_threshold(value as int) {
        Ok(decimal(value as int))
    } else {
        Err(ValidationError::ThresholdOutOfRange(value))
    }
}

/// The word for what was tried on a backing file.
pub open spec fn access_word(verb: Verb) -> Seq<char> {
    match verb {
        Verb::Read => "read"@,
        Verb::Write => "write"@,
    }
}

/// The description of a failed access to the backing file of `attribute`:
/// what was tried, the file's path, and the system's own words for the
/// cause.
pub open spec fn access_failure(verb: Verb, attribute: Attribute, cause: Seq<char>) -> Seq<char> {
    "failed to "@ + access_word(verb) + " "@ + attribute.spec_path() + ": "@ + cause
}

/// Checks the battery threshold `value` and, where it is a percentage from 0
/// to 100, returns the decimal text to write for it.
pub fn battery_threshold_text(value: i32) -> (r: Result<String, ValidationError>)
    ensures
        match r {
            Ok(text) => threshold_text(value) == Ok::<Seq<char>, ValidationError>(text@),
            Err(e) => threshold_text(value) == Err::<Seq<char>, ValidationError>(e),
        },
{
    if value < THRESHOLD_MIN || value > THRESHOLD_MAX {
        Err(ValidationError::ThresholdOutOfRange(value))
    } else {
        Ok(to_decimal(value))
    }
}

/// Describes a failed access to the backing file of `attribute`.
pub fn access_failure_message(verb: Verb, attribute: Attribute, cause: &str) -> (r: String)
    ensures
        r@ == access_failure(verb, attribute, cause@),
{
    let mut r = String::from_str("failed to ");
    match verb {
        Verb::Read => r.append("read"),
        Verb::Write => r.append("write"),
    }
    r.append(" ");
    r.append(attribute.path());
    r.append(": ");
    r.append(cause);
    r
}

} // verus!
