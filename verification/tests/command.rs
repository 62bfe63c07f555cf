use asus_control::{Attribute, Command, ParseError, PlatformProfile, Verb};

#[test]
fn profile_tokens_are_canonical() {
    assert_eq!(PlatformProfile::Quiet.as_str(), "quiet");
    assert_eq!(PlatformProfile::Balanced.as_str(), "balanced");
    assert_eq!(PlatformProfile::Performance.as_str(), "performance");
}

#[test]
fn profile_is_found_by_its_token_only() {
    assert_eq!(PlatformProfile::from_token("quiet"), Some(PlatformProfile::Quiet));
    assert_eq!(PlatformProfile::from_token("balanced"), Some(PlatformProfile::Balanced));
    assert_eq!(PlatformProfile::from_token("performance"), Some(PlatformProfile::Performance));
    assert_eq!(PlatformProfile::from_token("Quiet"), None);
    assert_eq!(PlatformProfile::from_token("QUIET"), None);
    assert_eq!(PlatformProfile::from_token("silent"), None);
    assert_eq!(PlatformProfile::from_token("quiet "), None);
    assert_eq!(PlatformProfile::from_token(""), None);
}

#[test]
fn profile_token_round_trip() {
    for p in [PlatformProfile::Quiet, PlatformProfile::Balanced, PlatformProfile::Performance] {
        assert_eq!(PlatformProfile::from_token(p.as_str()), Some(p));
    }
}

#[test]
fn attribute_names_and_paths() {
    assert_eq!(Attribute::BatteryThreshold.name(), "battery-threshold");
    assert_eq!(Attribute::Profile.name(), "profile");
    assert_eq!(
        Attribute::BatteryThreshold.path(),
        "/sys/class/power_supply/BAT0/charge_control_end_threshold"
    );
    assert_eq!(Attribute::Profile.path(), "/sys/firmware/acpi/platform_profile");
    assert_eq!(Attribute::from_name("battery-threshold"), Some(Attribute::BatteryThreshold));
    assert_eq!(Attribute::from_name("profile"), Some(Attribute::Profile));
    assert_eq!(Attribute::from_name("fanmode"), None);
    assert_eq!(Attribute::from_name("Profile"), None);
}

#[test]
fn verb_words() {
    assert_eq!(Verb::Read.as_str(), "get");
    assert_eq!(Verb::Write.as_str(), "set");
    assert_eq!(Verb::from_token("get"), Some(Verb::Read));
    assert_eq!(Verb::from_token("set"), Some(Verb::Write));
    assert_eq!(Verb::from_token("GET"), None);
    assert_eq!(Verb::from_token("frobnicate"), None);
}

#[test]
fn variants_lists_the_four_forms() {
    let forms = Command::variants();
    assert_eq!(
        forms,
        &[
            "set battery-threshold <num>",
            "set profile <quiet|balanced|performance>",
            "get profile",
            "get battery-threshold",
        ]
    );
    assert_eq!(
        forms.join(", "),
        "set battery-threshold <num>, set profile <quiet|balanced|performance>, get profile, get battery-threshold"
    );
}

#[test]
fn parse_reads_the_four_commands() {
    assert_eq!(Command::parse("set battery-threshold 80"), Ok(Command::SetBatteryThreshold(80)));
    assert_eq!(
        Command::parse("set profile quiet"),
        Ok(Command::SetProfile(PlatformProfile::Quiet))
    );
    assert_eq!(
        Command::parse("set profile balanced"),
        Ok(Command::SetProfile(PlatformProfile::Balanced))
    );
    assert_eq!(
        Command::parse("set profile performance"),
        Ok(Command::SetProfile(PlatformProfile::Performance))
    );
    assert_eq!(Command::parse("get battery-threshold"), Ok(Command::GetBatteryThreshold));
    assert_eq!(Command::parse("get profile"), Ok(Command::GetProfile));
}

#[test]
fn parse_ignores_surrounding_and_repeated_white_space() {
    assert_eq!(Command::parse("  get   profile \n"), Ok(Command::GetProfile));
    assert_eq!(
        Command::parse("\tset\tbattery-threshold\t60\r\n"),
        Ok(Command::SetBatteryThreshold(60))
    );
}

#[test]
fn parse_ignores_tokens_after_the_command() {
    assert_eq!(Command::parse("get profile now"), Ok(Command::GetProfile));
    assert_eq!(
        Command::parse("set battery-threshold 70 percent"),
        Ok(Command::SetBatteryThreshold(70))
    );
}

#[test]
fn parse_takes_any_integer_of_32_bits() {
    assert_eq!(Command::parse("set battery-threshold 101"), Ok(Command::SetBatteryThreshold(101)));
    assert_eq!(Command::parse("set battery-threshold -1"), Ok(Command::SetBatteryThreshold(-1)));
    assert_eq!(Command::parse("set battery-threshold +42"), Ok(Command::SetBatteryThreshold(42)));
    assert_eq!(
        Command::parse("set battery-threshold -2147483648"),
        Ok(Command::SetBatteryThreshold(i32::MIN))
    );
}

#[test]
fn parse_failures() {
    assert_eq!(Command::parse(""), Err(ParseError::Empty));
    assert_eq!(Command::parse("   \n"), Err(ParseError::Empty));
    assert_eq!(
        Command::parse("frobnicate"),
        Err(ParseError::UnknownVerb("frobnicate".to_string()))
    );
    assert_eq!(Command::parse("SET profile quiet"), Err(ParseError::UnknownVerb("SET".to_string())));
    assert_eq!(Command::parse("get"), Err(ParseError::MissingTarget(Verb::Read)));
    assert_eq!(Command::parse("set"), Err(ParseError::MissingTarget(Verb::Write)));
    assert_eq!(
        Command::parse("get fanmode"),
        Err(ParseError::UnknownTarget(Verb::Read, "fanmode".to_string()))
    );
    assert_eq!(
        Command::parse("set fanmode quiet"),
        Err(ParseError::UnknownTarget(Verb::Write, "fanmode".to_string()))
    );
    assert_eq!(
        Command::parse("set battery-threshold"),
        Err(ParseError::MissingValue(Attribute::BatteryThreshold))
    );
    assert_eq!(Command::parse("set profile"), Err(ParseError::MissingValue(Attribute::Profile)));
    assert_eq!(
        Command::parse("set battery-threshold eighty"),
        Err(ParseError::InvalidThreshold("eighty".to_string()))
    );
    assert_eq!(
        Command::parse("set battery-threshold 80.5"),
        Err(ParseError::InvalidThreshold("80.5".to_string()))
    );
    assert_eq!(
        Command::parse("set battery-threshold 2147483648"),
        Err(ParseError::InvalidThreshold("2147483648".to_string()))
    );
    assert_eq!(
        Command::parse("set profile Quiet"),
        Err(ParseError::InvalidProfile("Quiet".to_string()))
    );
    assert_eq!(
        Command::parse("set profile turbo"),
        Err(ParseError::InvalidProfile("turbo".to_string()))
    );
}

#[test]
fn parse_error_messages() {
    assert_eq!(ParseError::Empty.message(), "empty command");
    assert_eq!(
        ParseError::UnknownVerb("frobnicate".to_string()).message(),
        "unknown command: frobnicate - use 'get' or 'set'"
    );
    assert_eq!(ParseError::MissingTarget(Verb::Read).message(), "get requires a target");
    assert_eq!(ParseError::MissingTarget(Verb::Write).message(), "set requires a target");
    assert_eq!(
        ParseError::UnknownTarget(Verb::Read, "fanmode".to_string()).message(),
        "unknown get target: fanmode"
    );
    assert_eq!(
        ParseError::UnknownTarget(Verb::Write, "fanmode".to_string()).message(),
        "unknown set target: fanmode"
    );
    assert_eq!(
        ParseError::MissingValue(Attribute::BatteryThreshold).message(),
        "battery-threshold requires a value"
    );
    assert_eq!(
        ParseError::MissingValue(Attribute::Profile).message(),
        "profile requires an argument"
    );
    assert_eq!(
        ParseError::InvalidThreshold("x".to_string()).message(),
        "invalid battery threshold"
    );
    assert_eq!(ParseError::InvalidProfile("x".to_string()).message(), "invalid profile");
}

#[test]
fn parse_error_carries_the_offending_token() {
    assert_eq!(ParseError::Empty.token(), None);
    assert_eq!(ParseError::UnknownVerb("frobnicate".to_string()).token(), Some("frobnicate"));
    assert_eq!(ParseError::MissingTarget(Verb::Read).token(), None);
    assert_eq!(ParseError::UnknownTarget(Verb::Write, "fan".to_string()).token(), Some("fan"));
    assert_eq!(ParseError::MissingValue(Attribute::Profile).token(), None);
    assert_eq!(ParseError::InvalidThreshold("8o".to_string()).token(), Some("8o"));
    assert_eq!(ParseError::InvalidProfile("turbo".to_string()).token(), Some("turbo"));
}

#[test]
fn parse_classifies_every_sample() {
    let samples = [
        "", " ", "get", "set", "get get", "set set set", "\u{0}", "get\u{0}profile",
        "get profile\u{0}", "set battery-threshold \u{ff18}\u{ff10}", "\u{1F50B} 80",
        "set  profile  quiet  quiet", "battery-threshold 80", "fanmode quiet",
    ];
    for s in samples {
        match Command::parse(s) {
            Ok(c) => assert_eq!(Command::parse(&c.to_string()), Ok(c), "{:?}", s),
            Err(e) => assert!(!e.message().is_empty(), "{:?}", s),
        }
    }
}

#[test]
fn to_string_writes_the_wire_form() {
    assert_eq!(Command::SetBatteryThreshold(80).to_string(), "set battery-threshold 80");
    assert_eq!(Command::SetBatteryThreshold(-5).to_string(), "set battery-threshold -5");
    assert_eq!(Command::SetProfile(PlatformProfile::Quiet).to_string(), "set profile quiet");
    assert_eq!(Command::SetProfile(PlatformProfile::Balanced).to_string(), "set profile balanced");
    assert_eq!(
        Command::SetProfile(PlatformProfile::Performance).to_string(),
        "set profile performance"
    );
    assert_eq!(Command::GetBatteryThreshold.to_string(), "get battery-threshold");
    assert_eq!(Command::GetProfile.to_string(), "get profile");
}

#[test]
fn what_is_written_is_read_back() {
    let mut commands = vec![
        Command::GetBatteryThreshold,
        Command::GetProfile,
        Command::SetProfile(PlatformProfile::Quiet),
        Command::SetProfile(PlatformProfile::Balanced),
        Command::SetProfile(PlatformProfile::Performance),
        Command::SetBatteryThreshold(i32::MIN),
        Command::SetBatteryThreshold(i32::MAX),
    ];
    for n in -3..=103 {
        commands.push(Command::SetBatteryThreshold(n));
    }
    for c in commands {
        assert_eq!(Command::parse(&c.to_string()), Ok(c));
    }
}
