use hilfmir::Command;

fn translate_arg(c: Option<Command>) -> Option<String> {
    match c {
        Some(Command::Translate(s)) => Some(s),
        _ => None,
    }
}

#[test]
fn translate_command_with_args() {
    assert_eq!(
        translate_arg(Command::parse("/translate en Hallo Welt!", "hilfmir_bot")).as_deref(),
        Some("en Hallo Welt!")
    );
}

#[test]
fn short_command() {
    match Command::parse("/t de hi there", "hilfmir_bot") {
        Some(Command::T(s)) => assert_eq!(s, "de hi there"),
        other => panic!("unexpected {:?}", other),
    }
}

#[test]
fn help_command_ignores_args() {
    assert!(matches!(Command::parse("/help", "bot"), Some(Command::Help)));
    assert!(matches!(Command::parse("/help me please", "bot"), Some(Command::Help)));
}

#[test]
fn command_without_args() {
    assert_eq!(translate_arg(Command::parse("/translate", "bot")).as_deref(), Some(""));
}

#[test]
fn mention_of_this_bot_any_case() {
    assert_eq!(
        translate_arg(Command::parse("/translate@Hilfmir_Bot en x", "hilfmir_bot")).as_deref(),
        Some("en x")
    );
}

#[test]
fn mention_of_another_bot() {
    assert!(Command::parse("/translate@other_bot en x", "hilfmir_bot").is_none());
}

#[test]
fn unknown_or_uncommanded_text() {
    assert!(Command::parse("hello there", "bot").is_none());
    assert!(Command::parse("/T en x", "bot").is_none());
    assert!(Command::parse("/tr en x", "bot").is_none());
    assert!(Command::parse("", "bot").is_none());
    assert!(Command::parse(" /t en x", "bot").is_none());
}
