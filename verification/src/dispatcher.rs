//! The dispatcher: from a request to what the daemon does for it, and from
//! the outcome of a file access to the response.
//!
//! A request is served in two halves. [`handle_command`] reads the request
//! and decides: answer at once, write a backing file, or read one. The caller
//! performs the file access and hands its outcome to [`write_response`] or
//! [`read_response`], which gives the response. Nothing is kept between
//! requests.

use vstd::prelude::*;
use crate::attribute::Attribute;
use crate::command::{Command, ParseErrorView, Verb};
use crate::connector::{
    access_failure, access_failure_message, battery_threshold_text, threshold_text,
    valid_threshold,
};
use crate::number::{decimal, lemma_decimal_is_word, lemma_decimal_round_trip};
use crate::profile::PlatformProfile;
use crate::text::{
    joined, lemma_tokens_of_joined, lemma_tokens_of_trimmed, lemma_trimmed_word, tokens, trim,
    trimmed,
};

verus! {

/// What the daemon does for a request.
#[derive(Debug, PartialEq, Eq)]
pub enum Action {
    /// Answer with this response; no backing file is touched.
    Reply(String),
    /// Replace the contents of the attribute's backing file with `text`, then
    /// answer with [`write_response`].
    Write { attribute: Attribute, text: String },
    /// Read the attribute's backing file, then answer with
    /// [`read_response`].
    Read { attribute: Attribute },
}

/// The mathematical form of an [`Action`]: the same cases, over texts.
pub enum ActionView {
    Reply(Seq<char>),
    Write { attribute: Attribute, text: Seq<char> },
    Read { attribute: Attribute },
}

impl View for Action {
    type V = ActionView;

    open spec fn view(&self) -> ActionView {
        match self {
            Action::Reply(response) => ActionView::Reply(response@),
            Action::Write { attribute, text } => ActionView::Write {
                attribute: *attribute,
                text: text@,
            },
            Action::Read { attribute } => ActionView::Read { attribute: *attribute },
        }
    }
}

/// The response that reports a failure with the given description.
pub open spec fn error_response(description: Seq<char>) -> Seq<char> {
    "error: "@ + description
}

/// The words that confirm a write to `attribute`; the written text follows
/// them.
pub open spec fn confirmation(attribute: Attribute) -> Seq<char> {
    match attribute {
        Attribute::BatteryThreshold => "Battery threshold set to "@,
        Attribute::Profile => "Profile set to "@,
    }
}

/// What the daemon does for a command: a threshold is checked before it is
/// written, a profile is written as its canonical token, and a read is
/// passed on.
pub open spec fn dispatched(command: Command) -> ActionView {
    match command {
        Command::SetBatteryThreshold(value) => match threshold_text(value) {
            Ok(text) => ActionView::Write { attribute: Attribute::BatteryThreshold, text },
            Err(e) => ActionView::Reply(error_response(e.spec_message())),
        },
        Command::SetProfile(profile) => ActionView::Write {
            attribute: Attribute::Profile,
            text: profile.token(),
        },
        Command::GetBatteryThreshold => ActionView::Read { attribute: Attribute::BatteryThreshold },
        Command::GetProfile => ActionView::Read { attribute: Attribute::Profile },
    }
}

/// What the daemon does for a request: what it does for the command that the
/// request spells, or an error response where it spells none.
pub open spec fn handled(request: Seq<char>) -> ActionView {
    match Command::parsed(request) {
        Ok(command) => dispatched(command),
        Err(e) => ActionView::Reply(error_response(e.message())),
    }
}

/// The response after a write of `text` to the backing file of `attribute`:
/// a confirmation, or the failure where the write failed for `failure`.
pub open spec fn write_reply(
    attribute: Attribute,
    text: Seq<char>,
    failure: Option<Seq<char>>,
) -> Seq<char> {
    match failure {
        None => confirmation(attribute) + text,
        Some(cause) => error_response(access_failure(Verb::Write, attribute, cause)),
    }
}

/// The response after a read of the backing file of `attribute`: the
/// attribute's name and the contents without the white space around them, or
/// the failure where the read failed.
pub open spec fn read_reply(
    attribute: Attribute,
    outcome: Result<Seq<char>, Seq<char>>,
) -> Seq<char> {
    match outcome {
        Ok(contents) => attribute.spec_name() + " "@ + trimmed(contents),
        Err(cause) => error_response(access_failure(Verb::Read, attribute, cause)),
    }
}

/// Whether `text` may stand in the backing file of `attribute`: the decimal
/// numeral of a percentage from 0 to 100, or the canonical token of a
/// profile.
pub open spec fn writable(attribute: Attribute, text: Seq<char>) -> bool {
    match attribute {
        Attribute::BatteryThreshold => exists|n: int|
            valid_threshold(n) && text == #[trigger] decimal(n),
        Attribute::Profile => PlatformProfile::named(text) is Some,
    }
}

/// The request that sets the battery threshold to `n`.
pub open spec fn threshold_request(n: int) -> Seq<char> {
    "set battery-threshold "@ + decimal(n)
}

/// The request that sets the profile to the one that `token` names.
pub open spec fn profile_request(token: Seq<char>) -> Seq<char> {
    "set profile "@ + token
}

/// Serving one request when every file access succeeds: the contents of the
/// backing files afterwards, and the response. `files` holds the contents
/// before. A write replaces the whole contents of one file, and a read gives
/// back what the file holds.
pub open spec fn served(files: Map<Attribute, Seq<char>>, request: Seq<char>) -> (
    Map<Attribute, Seq<char>>,
    Seq<char>,
) {
    match handled(request) {
        ActionView::Reply(response) => (files, response),
        ActionView::Write { attribute, text } => (
            files.insert(attribute, text),
            write_reply(attribute, text, None),
        ),
        ActionView::Read { attribute } => (files, read_reply(attribute, Ok(files[attribute]))),
    }
}

/// A request to set the battery threshold is read as that command where the
/// value fits 32 bits, and fails on its value where it does not.
pub proof fn lemma_threshold_request_parsed(n: int)
    ensures
        Command::parsed(threshold_request(n)) == if i32::MIN <= n <= i32::MAX {
            Ok::<Command, ParseErrorView>(Command::SetBatteryThreshold(n as i32))
        } else {
            Err::<Command, ParseErrorView>(ParseErrorView::InvalidThreshold(decimal(n)))
        },
{
    reveal_strlit("set");
    reveal_strlit("get");
    reveal_strlit("battery-threshold");
    reveal_strlit("profile");
    reveal_strlit("set battery-threshold ");
    let words = seq!["set"@, "battery-threshold"@, decimal(n)];
    lemma_decimal_is_word(n);
    lemma_decimal_round_trip(n);
    reveal_with_fuel(joined, 3);
    assert(words.drop_first().drop_first().len() == 1);
    assert(threshold_request(n) =~= joined(words));
    lemma_tokens_of_joined(words);
    assert("set"@[0] != "get"@[0]);
}

/// Setting the battery threshold to a percentage from 0 to 100 and then
/// reading it reports that percentage: the set request writes the decimal
/// numeral of `n` and is confirmed, and the get request that follows answers
/// with the attribute's name and that numeral.
pub proof fn lemma_threshold_round_trip(files: Map<Attribute, Seq<char>>, n: int)
    requires
        0 <= n <= 100,
    ensures
        handled(threshold_request(n)) == (ActionView::Write {
            attribute: Attribute::BatteryThreshold,
            text: decimal(n),
        }),
        ({
            let after_set = served(files, threshold_request(n));
            let after_get = served(after_set.0, "get battery-threshold"@);
            &&& after_set.0 == files.insert(Attribute::BatteryThreshold, decimal(n))
            &&& after_set.1 == "Battery threshold set to "@ + decimal(n)
            &&& after_get.0 == after_set.0
            &&& after_get.1 == "battery-threshold "@ + decimal(n)
        }),
{
    lemma_threshold_request_parsed(n);
    Command::GetBatteryThreshold.lemma_parse_wire();
    lemma_decimal_is_word(n);
    lemma_trimmed_word(decimal(n));
    reveal_strlit("battery-threshold");
    reveal_strlit("battery-threshold ");
    reveal_strlit(" ");
    assert("battery-threshold"@ + " "@ =~= "battery-threshold "@);
}

/// A request to set the battery threshold to an integer outside 0 to 100 is
/// answered with an error and nothing is written: the error names the range
/// where the integer fits 32 bits, and calls the value invalid where it does
/// not.
pub proof fn lemma_threshold_out_of_range(files: Map<Attribute, Seq<char>>, n: int)
    requires
        !(0 <= n <= 100),
    ensures
        handled(threshold_request(n)) == ActionView::Reply(
            error_response(
                if i32::MIN <= n <= i32::MAX {
                    "threshold out of range (0-100)"@
                } else {
                    "invalid battery threshold"@
                },
            ),
        ),
        served(files, threshold_request(n)).0 == files,
{
    lemma_threshold_request_parsed(n);
}

/// Setting the profile by its canonical token and then reading it reports
/// that token: the set request writes the token and is confirmed, and the get
/// request that follows answers with the attribute's name and the token.
pub proof fn lemma_profile_round_trip(files: Map<Attribute, Seq<char>>, profile: PlatformProfile)
    ensures
        handled(profile_request(profile.token())) == (ActionView::Write {
            attribute: Attribute::Profile,
            text: profile.token(),
        }),
        ({
            let after_set = served(files, profile_request(profile.token()));
            let after_get = served(after_set.0, "get profile"@);
            &&& after_set.0 == files.insert(Attribute::Profile, profile.token())
            &&& after_set.1 == "Profile set to "@ + profile.token()
            &&& after_get.0 == after_set.0
            &&& after_get.1 == "profile "@ + profile.token()
        }),
{
    Command::SetProfile(profile).lemma_parse_wire();
    Command::GetProfile.lemma_parse_wire();
    profile.lemma_token_names_profile();
    lemma_trimmed_word(profile.token());
    reveal_strlit("profile");
    reveal_strlit("profile ");
    reveal_strlit(" ");
    assert("profile"@ + " "@ =~= "profile "@);
}

/// A request whose first token is neither `get` nor `set` is answered with
/// an error that names that token, and no backing file is touched.
pub proof fn lemma_unknown_verb(files: Map<Attribute, Seq<char>>, request: Seq<char>)
    requires
        tokens(request).len() > 0,
        Verb::named(tokens(request)[0]) is None,
    ensures
        handled(request) == ActionView::Reply(
            "error: unknown command: "@ + tokens(request)[0] + " - use 'get' or 'set'"@,
        ),
        served(files, request).0 == files,
{
    reveal_strlit("error: ");
    reveal_strlit("unknown command: ");
    reveal_strlit("error: unknown command: ");
    let token = tokens(request)[0];
    let tail = " - use 'get' or 'set'"@;
    assert("error: "@ + ("unknown command: "@ + token + tail) =~= "error: unknown command: "@
        + token + tail);
}

/// White space around a request changes nothing: the request is handled as
/// it is without its leading and trailing white space.
pub proof fn lemma_surrounding_space_ignored(request: Seq<char>)
    ensures
        Command::parsed(trimmed(request)) == Command::parsed(request),
        handled(trimmed(request)) == handled(request),
{
    lemma_tokens_of_trimmed(request);
}

/// Every request is answered at once with an error, or leads to a write of a
/// text that may stand in the backing file, or leads to a read. It is
/// answered at once exactly when it spells no command or asks for a battery
/// threshold outside 0 to 100.
pub proof fn lemma_handled_cases(request: Seq<char>)
    ensures
        match handled(request) {
            ActionView::Reply(response) => {
                &&& exists|description: Seq<char>| response == #[trigger] error_response(description)
                &&& match Command::parsed(request) {
                    Ok(Command::SetBatteryThreshold(value)) => !valid_threshold(value as int),
                    Ok(_) => false,
                    Err(_) => true,
                }
            },
            ActionView::Write { attribute, text } => {
                &&& writable(attribute, text)
                &&& Command::parsed(request) is Ok
            },
            ActionView::Read { attribute } => Command::parsed(request) == Ok::<
                Command,
                ParseErrorView,
            >(Command::reading(attribute)),
        },
{
    match Command::parsed(request) {
        Ok(Command::SetBatteryThreshold(value)) => {
            if valid_threshold(value as int) {
                assert(writable(Attribute::BatteryThreshold, decimal(value as int)));
            } else {
                let description = "threshold out of range (0-100)"@;
                assert(handled(request) == ActionView::Reply(error_response(description)));
            }
        },
        Ok(Command::SetProfile(profile)) => {
            profile.lemma_token_names_profile();
        },
        Ok(_) => {},
        Err(e) => {
            assert(handled(request) == ActionView::Reply(error_response(e.message())));
        },
    }
}

/// Of two accepted requests to set the battery threshold, the one served
/// last decides what a read that follows reports: its value, which is one of
/// the two.
pub proof fn lemma_last_write_wins(files: Map<Attribute, Seq<char>>, a: int, b: int)
    requires
        0 <= a <= 100,
        0 <= b <= 100,
    ensures
        ({
            let first = served(files, threshold_request(a));
            let second = served(first.0, threshold_request(b));
            let read = served(second.0, "get battery-threshold"@);
            &&& first.1 == "Battery threshold set to "@ + decimal(a)
            &&& second.1 == "Battery threshold set to "@ + decimal(b)
            &&& read.1 == "battery-threshold "@ + decimal(b)
        }),
{
    lemma_threshold_round_trip(files, a);
    let first = served(files, threshold_request(a));
    lemma_threshold_round_trip(first.0, b);
}

/// Renders a failure with the given description as a response.
pub fn error_reply(description: &str) -> (r: String)
    ensures
        r@ == error_response(description@),
{
    let mut r = String::from_str("error: ");
    r.append(description);
    r
}

/// Decides what to do for a command. A battery threshold outside 0 to 100 is
/// answered with an error and never written.
pub fn dispatch(command: Command) -> (action: Action)
    ensures
        action@ == dispatched(command),
{
    match command {
        Command::SetBatteryThreshold(value) => match battery_threshold_text(value) {
            Ok(text) => Action::Write { attribute: Attribute::BatteryThreshold, text },
            Err(e) => {
                let description = e.message();
                Action::Reply(error_reply(description.as_str()))
            },
        },
        Command::SetProfile(profile) => Action::Write {
            attribute: Attribute::Profile,
            text: String::from_str(profile.as_str()),
        },
        Command::GetBatteryThreshold => Action::Read { attribute: Attribute::BatteryThreshold },
        Command::GetProfile => Action::Read { attribute: Attribute::Profile },
    }
}

/// Reads a request and decides what to do for it. A request that spells no
/// command is answered with an error that describes why.
pub fn handle_command(cmd: &str) -> (action: Action)
    ensures
        action@ == handled(cmd@),
{
    match Command::parse(cmd) {
        Ok(command) => dispatch(command),
        Err(e) => {
            let description = e.message();
            Action::Reply(error_reply(description.as_str()))
        },
    }
}

/// Gives the response after the write that [`handle_command`] asked for.
/// `outcome` is `Ok` where the write succeeded, and else holds the system's
/// words for the cause.
pub fn write_response(attribute: Attribute, text: &str, outcome: Result<(), String>) -> (r: String)
    ensures
        r@ == write_reply(
            attribute,
            text@,
            match outcome {
                Ok(_) => None,
                Err(cause) => Some(cause@),
            },
        ),
{
    match outcome {
        Ok(_) => {
            let mut r = match attribute {
                Attribute::BatteryThreshold => String::from_str("Battery threshold set to "),
                Attribute::Profile => String::from_str("Profile set to "),
            };
            r.append(text);
            r
        },
        Err(cause) => {
            let description = access_failure_message(Verb::Write, attribute, cause.as_str());
            error_reply(description.as_str())
        },
    }
}

/// Gives the response after the read that [`handle_command`] asked for.
/// `outcome` holds the file's contents where the read succeeded, and else the
/// system's words for the cause.
pub fn read_response(attribute: Attribute, outcome: Result<String, String>) -> (r: String)
    ensures
        r@ == read_reply(
            attribute,
            match outcome {
                Ok(contents) => Ok(contents@),
                Err(cause) => Err(cause@),
            },
        ),
{
    match outcome {
        Ok(contents) => {
            let mut r = String::from_str(attribute.name());
            r.append(" ");
            r.append(trim(contents.as_str()));
            r
        },
        Err(cause) => {
            let description = access_failure_message(Verb::Read, attribute, cause.as_str());
            error_reply(description.as_str())
        },
    }
}

} // verus!
