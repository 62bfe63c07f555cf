use asus_control::text::{chars_of, is_whitespace, same_text, split_whitespace, trim};

#[test]
fn whitespace_matches_the_unicode_property() {
    let mut code: u32 = 0;
    while code <= 0x10FFFF {
        if let Some(c) = char::from_u32(code) {
            assert_eq!(is_whitespace(c), c.is_whitespace(), "U+{:04X}", code);
        }
        code += 1;
    }
}

#[test]
fn chars_of_lists_the_characters() {
    assert_eq!(chars_of("a\u{e9}\u{3000}z"), vec!['a', '\u{e9}', '\u{3000}', 'z']);
    assert_eq!(chars_of(""), Vec::<char>::new());
}

#[test]
fn same_text_compares_character_for_character() {
    assert!(same_text("profile", "profile"));
    assert!(same_text("", ""));
    assert!(!same_text("profile", "Profile"));
    assert!(!same_text("profile", "profiles"));
    assert!(!same_text("get", "set"));
}

#[test]
fn split_whitespace_gives_the_tokens() {
    assert_eq!(split_whitespace("set battery-threshold 80"), vec!["set", "battery-threshold", "80"]);
    assert_eq!(split_whitespace("  get\t\tprofile \n"), vec!["get", "profile"]);
    assert_eq!(split_whitespace("one"), vec!["one"]);
    assert_eq!(split_whitespace("a\u{a0}b\u{2003}c"), vec!["a", "b", "c"]);
}

#[test]
fn split_whitespace_of_blank_text_is_empty() {
    assert_eq!(split_whitespace(""), Vec::<&str>::new());
    assert_eq!(split_whitespace(" \t\r\n"), Vec::<&str>::new());
}

#[test]
fn split_whitespace_agrees_with_std() {
    let samples = [
        "",
        " ",
        "get profile",
        "\tset   profile\u{85}quiet  ",
        "x",
        " \u{1680}a\u{2028}bc\u{205f}\u{3000}d",
        "caf\u{e9} \u{4e2d}\u{6587}  ok",
    ];
    for s in samples {
        assert_eq!(split_whitespace(s), s.split_whitespace().collect::<Vec<&str>>(), "{:?}", s);
    }
}

#[test]
fn trim_strips_both_ends_only() {
    assert_eq!(trim("80\n"), "80");
    assert_eq!(trim("  quiet \t"), "quiet");
    assert_eq!(trim("a b"), "a b");
    assert_eq!(trim("\u{3000}a  b\u{a0}"), "a  b");
    assert_eq!(trim(""), "");
    assert_eq!(trim(" \n\t"), "");
}

#[test]
fn trim_agrees_with_std() {
    let samples = ["", " ", "80\n", "\r\n balanced\r\n", "x", "\u{2003}\u{e9}t\u{e9} \u{2003}"];
    for s in samples {
        assert_eq!(trim(s), s.trim(), "{:?}", s);
    }
}
