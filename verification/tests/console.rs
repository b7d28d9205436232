use arm_core::console::{
    fixed_reply, is_whitespace, parse_request, parse_request_masked, split_words, trim_line, whitespace_mask,
    ConsoleRequest, GREETING, HELP_TEXT, OK_REPLY, SET_TARGET_USAGE,
};

fn mask_of(line: &str) -> Vec<bool> {
    line.chars().map(|c| c == ' ').collect()
}

#[test]
fn get_with_surrounding_whitespace() {
    assert!(matches!(parse_request("  get \t"), ConsoleRequest::Get));
    assert!(matches!(parse_request("get"), ConsoleRequest::Get));
}

#[test]
fn set_target_keeps_coordinate_words() {
    match parse_request("set_target 1.2  0.8 -0.4") {
        ConsoleRequest::SetTarget(x, y, z) => {
            assert_eq!(x, "1.2");
            assert_eq!(y, "0.8");
            assert_eq!(z, "-0.4");
        }
        other => panic!("unexpected {other:?}"),
    }
}

#[test]
fn set_target_with_wrong_word_count_is_unknown() {
    match parse_request("  set_target 1 2  ") {
        ConsoleRequest::Unknown(l) => assert_eq!(l, "set_target 1 2"),
        other => panic!("unexpected {other:?}"),
    }
}

#[test]
fn single_word_commands() {
    assert!(matches!(parse_request("pause"), ConsoleRequest::Pause));
    assert!(matches!(parse_request("resume"), ConsoleRequest::Resume));
    assert!(matches!(parse_request("reset"), ConsoleRequest::Reset));
    assert!(matches!(parse_request("help"), ConsoleRequest::Help));
}

#[test]
fn blank_lines_are_empty() {
    assert!(matches!(parse_request(""), ConsoleRequest::Empty));
    assert!(matches!(parse_request(" \t\n\u{3000}"), ConsoleRequest::Empty));
}

#[test]
fn commands_are_case_sensitive_and_exact() {
    assert!(matches!(parse_request("GET"), ConsoleRequest::Unknown(_)));
    assert!(matches!(parse_request("get now"), ConsoleRequest::Unknown(_)));
    assert!(matches!(parse_request("pause pause"), ConsoleRequest::Unknown(_)));
}

#[test]
fn unicode_whitespace_separates_words() {
    // U+00A0 (no-break space) and U+2003 (em space) are White_Space.
    assert!(matches!(parse_request("\u{a0}reset\u{2003}"), ConsoleRequest::Reset));
    let ws = whitespace_mask("a\u{a0}b");
    assert_eq!(ws, vec![false, true, false]);
}

#[test]
fn masked_parse_follows_the_given_mask() {
    // With a mask that calls 'x' whitespace, "getx" reads as "get".
    let line = "getx";
    let ws = vec![false, false, false, true];
    assert!(matches!(parse_request_masked(line, &ws), ConsoleRequest::Get));
    let line = "  set_target a b c ";
    assert!(matches!(
        parse_request_masked(line, &mask_of(line)),
        ConsoleRequest::SetTarget(..)
    ));
}

#[test]
fn split_and_trim() {
    let line = "  ab  c d ";
    let ws = mask_of(line);
    assert_eq!(split_words(line, &ws), vec!["ab", "c", "d"]);
    assert_eq!(trim_line(line, &ws), "ab  c d");
    let blank = "   ";
    assert_eq!(split_words(blank, &mask_of(blank)), Vec::<String>::new());
    assert_eq!(trim_line(blank, &mask_of(blank)), "");
}

#[test]
fn replies() {
    assert_eq!(fixed_reply(&ConsoleRequest::Pause).as_deref(), Some(OK_REPLY));
    assert_eq!(fixed_reply(&ConsoleRequest::Resume).as_deref(), Some("ok"));
    assert_eq!(fixed_reply(&ConsoleRequest::Reset).as_deref(), Some("ok"));
    assert_eq!(fixed_reply(&ConsoleRequest::Help).as_deref(), Some(HELP_TEXT));
    assert!(HELP_TEXT.starts_with("commands:\n  get"));
    assert_eq!(fixed_reply(&ConsoleRequest::Empty).as_deref(), Some(""));
    assert_eq!(
        fixed_reply(&parse_request(" fly away ")).as_deref(),
        Some("unknown: 'fly away'  (try 'help')")
    );
    assert_eq!(fixed_reply(&ConsoleRequest::Get), None);
    assert_eq!(
        fixed_reply(&ConsoleRequest::SetTarget("1".into(), "2".into(), "3".into())),
        None
    );
    assert_eq!(SET_TARGET_USAGE, "error: expected set_target <x> <y> <z>");
    assert!(GREETING.ends_with("> "));
}

#[test]
fn trimming_keeps_the_words() {
    let line = " \t set_target  1 2 3 \n";
    let ws = whitespace_mask(line);
    let trimmed = trim_line(line, &ws);
    assert_eq!(trimmed, "set_target  1 2 3");
    assert_eq!(split_words(&trimmed, &whitespace_mask(&trimmed)), split_words(line, &ws));
}

#[test]
fn whitespace_agrees_with_std_on_every_char() {
    for u in 0u32..=0x10ffff {
        if let Some(c) = char::from_u32(u) {
            assert_eq!(is_whitespace(c), c.is_whitespace(), "U+{:04X}", u);
        }
    }
}
