//! Requests: their typed form, the grammar that reads them, and the text
//! that writes them.
//!
//! A request is a line of tokens separated by white space:
//! `get <attribute>` or `set <attribute> <value>`. Tokens after those that
//! the command takes are ignored.

use vstd::prelude::*;
use crate::attribute::Attribute;
use crate::number::{
    decimal, lemma_decimal_is_word, lemma_decimal_round_trip, numeral_i32, parse_i32, to_decimal,
};
use crate::profile::PlatformProfile;
use crate::text::{
    is_word, joined, lemma_tokens_of_joined, same_text, split_whitespace, tokens,
};

verus! {

/// The first word of a request.
#[derive(Clone, Copy, Debug, PartialEq, Eq, Structural)]
pub enum Verb {
    /// `get`: read an attribute.
    Read,
    /// `set`: write an attribute.
    Write,
}

impl Verb {
    /// The word that stands for the verb in a request.
    pub open spec fn token(self) -> Seq<char> {
        match self {
            Verb::Read => "get"@,
            Verb::Write => "set"@,
        }
    }

    /// The verb that `t` names, character for character.
    pub open spec fn named(t: Seq<char>) -> Option<Verb> {
        if t == "get"@ {
            Some(Verb::Read)
        } else if t == "set"@ {
            Some(Verb::Write)
        } else {
            None
        }
    }

    /// Each verb's word names that verb, and is a word: it is not empty and
    /// holds no white space.
    pub proof fn lemma_token_names_verb(self)
        ensures
            Self::named(self.token()) == Some(self),
            is_word(self.token()),
    {
        reveal_strlit("get");
        reveal_strlit("set");
        assert("get"@[0] != "set"@[0]);
    }

    /// Returns the word that stands for the verb.
    pub fn as_str(&self) -> (s: &'static str)
        ensures
            s@ == self.token(),
    {
        match self {
            Verb::Read => "get",
            Verb::Write => "set",
        }
    }

    /// Returns the verb that `t` names, if it names one.
    pub fn from_token(t: &str) -> (r: Option<Verb>)
        ensures
            r == Self::named(t@),
    {
        if same_text(t, "get") {
            Some(Verb::Read)
        } else if same_text(t, "set") {
            Some(Verb::Write)
        } else {
            None
        }
    }
}

/// A request in typed form.
#[derive(Clone, Copy, Debug, PartialEq, Eq, Structural)]
pub enum Command {
    SetBatteryThreshold(i32),
    SetProfile(PlatformProfile),
    GetBatteryThreshold,
    GetProfile,
}

/// Why a request is not a command.
#[derive(Debug, PartialEq, Eq)]
pub enum ParseError {
    /// The request holds no token.
    Empty,
    /// The first token, kept here, is neither `get` nor `set`.
    UnknownVerb(String),
    /// Nothing follows the verb.
    MissingTarget(Verb),
    /// The token after the verb, kept here, names no attribute.
    UnknownTarget(Verb, String),
    /// Nothing follows the attribute that is to be set.
    MissingValue(Attribute),
    /// The value for the battery threshold, kept here, is not a decimal
    /// integer of 32 bits.
    InvalidThreshold(String),
    /// The value for the profile, kept here, is not a canonical token.
    InvalidProfile(String),
}

/// The mathematical form of a [`ParseError`]: the same cases, over texts.
pub enum ParseErrorView {
    Empty,
    UnknownVerb(Seq<char>),
    MissingTarget(Verb),
    UnknownTarget(Verb, Seq<char>),
    MissingValue(Attribute),
    InvalidThreshold(Seq<char>),
    InvalidProfile(Seq<char>),
}

impl View for ParseError {
    type V = ParseErrorView;

    open spec fn view(&self) -> ParseErrorView {
        match self {
            ParseError::Empty => ParseErrorView::Empty,
            ParseError::UnknownVerb(t) => ParseErrorView::UnknownVerb(t@),
            ParseError::MissingTarget(v) => ParseErrorView::MissingTarget(*v),
            ParseError::UnknownTarget(v, t) => ParseErrorView::UnknownTarget(*v, t@),
            ParseError::MissingValue(a) => ParseErrorView::MissingValue(*a),
            ParseError::InvalidThreshold(t) => ParseErrorView::InvalidThreshold(t@),
            ParseError::InvalidProfile(t) => ParseErrorView::InvalidProfile(t@),
        }
    }
}

impl ParseErrorView {
    /// The token that made the request fail, where one did.
    pub open spec fn token(self) -> Option<Seq<char>> {
        match self {
            ParseErrorView::UnknownVerb(t) => Some(t),
            ParseErrorView::UnknownTarget(_, t) => Some(t),
            ParseErrorView::InvalidThreshold(t) => Some(t),
            ParseErrorView::InvalidProfile(t) => Some(t),
            _ => None,
        }
    }

    /// The description of the failure, as a response reports it.
    pub open spec fn message(self) -> Seq<char> {
        match self {
            ParseErrorView::Empty => "empty command"@,
            ParseErrorView::UnknownVerb(t) => "unknown command: "@ + t + " - use 'get' or 'set'"@,
            ParseErrorView::MissingTarget(v) => v.token() + " requires a target"@,
            ParseErrorView::UnknownTarget(v, t) => "unknown "@ + v.token() + " target: "@ + t,
            ParseErrorView::MissingValue(Attribute::BatteryThreshold) =>
                "battery-threshold requires a value"@,
            ParseErrorView::MissingValue(Attribute::Profile) => "profile requires an argument"@,
            ParseErrorView::InvalidThreshold(_) => "invalid battery threshold"@,
            ParseErrorView::InvalidProfile(_) => "invalid profile"@,
        }
    }
}

impl ParseError {
    /// Returns the token that made the request fail, where one did.
    pub fn token(&self) -> (r: Option<&str>)
        ensures
            match r {
                Some(t) => self@.token() == Some(t@),
                None => self@.token().is_none(),
            },
    {
        match self {
            ParseError::UnknownVerb(t) => Some(t.as_str()),
            ParseError::UnknownTarget(_, t) => Some(t.as_str()),
            ParseError::InvalidThreshold(t) => Some(t.as_str()),
            ParseError::InvalidProfile(t) => Some(t.as_str()),
            _ => None,
        }
    }

    /// Returns the description of the failure.
    pub fn message(&self) -> (r: String)
        ensures
            r@ == self@.message(),
    {
        match self {
            ParseError::Empty => String::from_str("empty command"),
            ParseError::UnknownVerb(t) => {
                let mut r = String::from_str("unknown command: ");
                r.append(t.as_str());
                r.append(" - use 'get' or 'set'");
                r
            },
            ParseError::MissingTarget(v) => {
                let mut r = String::from_str(v.as_str());
                r.append(" requires a target");
                r
            },
            ParseError::UnknownTarget(v, t) => {
                let mut r = String::from_str("unknown ");
                r.append(v.as_str());
                r.append(" target: ");
                r.append(t.as_str());
                r
            },
            ParseError::MissingValue(Attribute::BatteryThreshold) => String::from_str(
                "battery-threshold requires a value",
            ),
            ParseError::MissingValue(Attribute::Profile) => String::from_str(
                "profile requires an argument",
            ),
            ParseError::InvalidThreshold(_) => String::from_str("invalid battery threshold"),
            ParseError::InvalidProfile(_) => String::from_str("invalid profile"),
        }
    }
}

/// The mathematical form of what parsing returns.
pub open spec fn parse_view(r: Result<Command, ParseError>) -> Result<Command, ParseErrorView> {
    match r {
        Ok(c) => Ok(c),
        Err(e) => Err(e@),
    }
}

impl Command {
    /// The command that reads `attribute`.
    pub open spec fn reading(attribute: Attribute) -> Command {
        match attribute {
            Attribute::BatteryThreshold => Command::GetBatteryThreshold,
            Attribute::Profile => Command::GetProfile,
        }
    }

    /// The command that sets `attribute` to what `value` denotes, or the
    /// failure where `value` denotes nothing that the attribute takes.
    pub open spec fn writing(attribute: Attribute, value: Seq<char>) -> Result<
        Command,
        ParseErrorView,
    > {
        match attribute {
            Attribute::BatteryThreshold => match numeral_i32(value) {
                Some(n) => Ok(Command::SetBatteryThreshold(n)),
                None => Err(ParseErrorView::InvalidThreshold(value)),
            },
            Attribute::Profile => match PlatformProfile::named(value) {
                Some(p) => Ok(Command::SetProfile(p)),
                None => Err(ParseErrorView::InvalidProfile(value)),
            },
        }
    }

    /// What a request means: the command it spells, or the first reason why
    /// it spells none.
    pub open spec fn parsed(input: Seq<char>) -> Result<Command, ParseErrorView> {
        let t = tokens(input);
        if t.len() == 0 {
            Err(ParseErrorView::Empty)
        } else {
            match Verb::named(t[0]) {
                None => Err(ParseErrorView::UnknownVerb(t[0])),
                Some(verb) => if t.len() < 2 {
                    Err(ParseErrorView::MissingTarget(verb))
                } else {
                    match Attribute::named(t[1]) {
                        None => Err(ParseErrorView::UnknownTarget(verb, t[1])),
                        Some(attribute) => match verb {
                            Verb::Read => Ok(Self::reading(attribute)),
                            Verb::Write => if t.len() < 3 {
                                Err(ParseErrorView::MissingValue(attribute))
                            } else {
                                Self::writing(attribute, t[2])
                            },
                        },
                    }
                },
            }
        }
    }

    /// The request that spells the command.
    pub open spec fn wire(self) -> Seq<char> {
        match self {
            Command::SetBatteryThreshold(n) => "set battery-threshold "@ + decimal(n as int),
            Command::SetProfile(p) => "set profile "@ + p.token(),
            Command::GetBatteryThreshold => "get battery-threshold"@,
            Command::GetProfile => "get profile"@,
        }
    }

    /// The words of the request that spells the command.
    pub open spec fn words(self) -> Seq<Seq<char>> {
        match self {
            Command::SetBatteryThreshold(n) => seq![
                Verb::Write.token(),
                Attribute::BatteryThreshold.spec_name(),
                decimal(n as int),
            ],
            Command::SetProfile(p) => seq![
                Verb::Write.token(),
                Attribute::Profile.spec_name(),
                p.token(),
            ],
            Command::GetBatteryThreshold => seq![
                Verb::Read.token(),
                Attribute::BatteryThreshold.spec_name(),
            ],
            Command::GetProfile => seq![Verb::Read.token(), Attribute::Profile.spec_name()],
        }
    }

    /// The request that spells a command is the command's words with one
    /// blank between neighbours, and these are its tokens.
    pub proof fn lemma_wire_tokens(self)
        ensures
            self.wire() == joined(self.words()),
            tokens(self.wire()) == self.words(),
    {
        reveal_strlit("get");
        reveal_strlit("set");
        reveal_strlit("battery-threshold");
        reveal_strlit("profile");
        reveal_strlit("set battery-threshold ");
        reveal_strlit("set profile ");
        reveal_strlit("get battery-threshold");
        reveal_strlit("get profile");
        let w = self.words();
        reveal_with_fuel(joined, 3);
        assert(w.drop_first().drop_first().len() == w.len() - 2);
        assert(self.wire() =~= joined(w));
        Verb::Read.lemma_token_names_verb();
        Verb::Write.lemma_token_names_verb();
        Attribute::BatteryThreshold.lemma_name_names_attribute();
        Attribute::Profile.lemma_name_names_attribute();
        match self {
            Command::SetBatteryThreshold(n) => {
                lemma_decimal_is_word(n as int);
            },
            Command::SetProfile(p) => {
                p.lemma_token_names_profile();
            },
            _ => {},
        }
        lemma_tokens_of_joined(w);
    }

    /// Reading the request that spells a command gives that command: what
    /// one side writes, the other side reads.
    pub proof fn lemma_parse_wire(self)
        ensures
            Self::parsed(self.wire()) == Ok::<Command, ParseErrorView>(self),
    {
        self.lemma_wire_tokens();
        Verb::Read.lemma_token_names_verb();
        Verb::Write.lemma_token_names_verb();
        Attribute::BatteryThreshold.lemma_name_names_attribute();
        Attribute::Profile.lemma_name_names_attribute();
        match self {
            Command::SetBatteryThreshold(n) => {
                lemma_decimal_round_trip(n as int);
            },
            Command::SetProfile(p) => {
                p.lemma_token_names_profile();
            },
            _ => {},
        }
    }

    /// Returns the forms that a request can take, for a usage message.
    pub fn variants() -> (r: &'static [&'static str])
        ensures
            r@.len() == 4,
            r@[0]@ == "set battery-threshold <num>"@,
            r@[1]@ == "set profile <quiet|balanced|performance>"@,
            r@[2]@ == "get profile"@,
            r@[3]@ == "get battery-threshold"@,
    {
        &[
            "set battery-threshold <num>",
            "set profile <quiet|balanced|performance>",
            "get profile",
            "get battery-threshold",
        ]
    }

    /// Reads a request. Every input gives a command or a failure, and never
    /// both.
    pub fn parse(input: &str) -> (r: Result<Command, ParseError>)
        ensures
            parse_view(r) == Self::parsed(input@),
    {
        let toks = split_whitespace(input);
        let ghost t = tokens(input@);
        assert(forall|i: int| 0 <= i < toks@.len() ==> (#[trigger] toks@[i])@ == t[i]);
        if toks.len() == 0 {
            return Err(ParseError::Empty);
        }
        let verb = match Verb::from_token(toks[0]) {
            Some(v) => v,
            None => {
                return Err(ParseError::UnknownVerb(String::from_str(toks[0])));
            },
        };
        if toks.len() < 2 {
            return Err(ParseError::MissingTarget(verb));
        }
        let attribute = match Attribute::from_name(toks[1]) {
            Some(a) => a,
            None => {
                return Err(ParseError::UnknownTarget(verb, String::from_str(toks[1])));
            },
        };
        match verb {
            Verb::Read => match attribute {
                Attribute::BatteryThreshold => Ok(Command::GetBatteryThreshold),
                Attribute::Profile => Ok(Command::GetProfile),
            },
            Verb::Write => {
                if toks.len() < 3 {
                    return Err(ParseError::MissingValue(attribute));
                }
                match attribute {
                    Attribute::BatteryThreshold => match parse_i32(toks[2]) {
                        Some(n) => Ok(Command::SetBatteryThreshold(n)),
                        None => Err(ParseError::InvalidThreshold(String::from_str(toks[2]))),
                    },
                    Attribute::Profile => match PlatformProfile::from_token(toks[2]) {
                        Some(p) => Ok(Command::SetProfile(p)),
                        None => Err(ParseError::InvalidProfile(String::from_str(toks[2]))),
                    },
                }
            },
        }
    }

    /// Writes the command as a request.
    pub fn to_string(&self) -> (r: String)
        ensures
            r@ == self.wire(),
    {
        match self {
            Command::SetBatteryThreshold(n) => {
                let mut r = String::from_str("set battery-threshold ");
                let value = to_decimal(*n);
                r.append(value.as_str());
                r
            },
            Command::SetProfile(p) => {
                let mut r = String::from_str("set profile ");
                r.append(p.as_str());
                r
            },
            Command::GetBatteryThreshold => String::from_str("get battery-threshold"),
            Command::GetProfile => String::from_str("get profile"),
        }
    }
}

} // verus!
