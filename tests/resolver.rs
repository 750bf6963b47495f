use hilfmir::{parse_command_text, resolve_translate, EarlierMessage, InboundEvent, Language, ResolveError};

fn event(message_id: i32, reply: Option<(i32, Option<&str>)>) -> InboundEvent {
    InboundEvent {
        chat_id: 42,
        message_id,
        text: None,
        reply_to: reply.map(|(id, text)| EarlierMessage {
            message_id: id,
            text: text.map(|t| t.to_string()),
        }),
    }
}

#[test]
fn inline_text_after_code() {
    let r = resolve_translate("en Hallo Welt!", &event(7, None)).unwrap();
    assert_eq!(r.target, Language::English);
    assert_eq!(r.query_text, "Hallo Welt!");
    assert_eq!(r.reply_to_message_id, 7);
}

#[test]
fn reply_text_with_bare_code() {
    let r = resolve_translate("en", &event(7, Some((3, Some("Bonjour"))))).unwrap();
    assert_eq!(r.target, Language::English);
    assert_eq!(r.query_text, "Bonjour");
    assert_eq!(r.reply_to_message_id, 3);
}

#[test]
fn unknown_code_is_rejected_whatever_follows() {
    assert_eq!(
        resolve_translate("xx some text", &event(1, None)).unwrap_err(),
        ResolveError::InvalidLanguageCode
    );
    assert_eq!(
        resolve_translate("xx", &event(1, Some((2, Some("Bonjour"))))).unwrap_err(),
        ResolveError::InvalidLanguageCode
    );
    assert_eq!(resolve_translate("", &event(1, None)).unwrap_err(), ResolveError::InvalidLanguageCode);
    assert_eq!(resolve_translate("e", &event(1, None)).unwrap_err(), ResolveError::InvalidLanguageCode);
}

#[test]
fn codes_are_case_sensitive() {
    assert_eq!(resolve_translate("EN hello", &event(1, None)).unwrap_err(), ResolveError::InvalidLanguageCode);
}

#[test]
fn code_must_be_followed_by_a_separator() {
    assert_eq!(resolve_translate("enHallo", &event(1, None)).unwrap_err(), ResolveError::InvalidLanguageCode);
}

#[test]
fn reply_text_wins_over_inline_text() {
    let r = resolve_translate("de some inline text", &event(9, Some((4, Some("Good morning"))))).unwrap();
    assert_eq!(r.target, Language::German);
    assert_eq!(r.query_text, "Good morning");
    assert_eq!(r.reply_to_message_id, 4);
}

#[test]
fn empty_reply_text_falls_back_to_inline_text() {
    let r = resolve_translate("fr hello", &event(9, Some((4, Some(""))))).unwrap();
    assert_eq!(r.query_text, "hello");
    assert_eq!(r.reply_to_message_id, 4);
    let r = resolve_translate("fr hello", &event(9, Some((4, None)))).unwrap();
    assert_eq!(r.query_text, "hello");
}

#[test]
fn missing_text_without_reply() {
    assert_eq!(resolve_translate("en", &event(1, None)).unwrap_err(), ResolveError::MissingQueryText);
    assert_eq!(resolve_translate("  ko   ", &event(1, None)).unwrap_err(), ResolveError::MissingQueryText);
    assert_eq!(resolve_translate("es ", &event(1, None)).unwrap_err(), ResolveError::MissingQueryText);
}

#[test]
fn blank_reply_text_is_missing_text() {
    assert_eq!(
        resolve_translate("en inline", &event(1, Some((2, Some("   "))))).unwrap_err(),
        ResolveError::MissingQueryText
    );
}

#[test]
fn payload_is_trimmed_before_the_code_is_read() {
    let r = resolve_translate("   ru \u{41f}\u{440}\u{438}\u{432}\u{435}\u{442}  ", &event(1, None)).unwrap();
    assert_eq!(r.target, Language::Russian);
    assert_eq!(r.query_text, "\u{41f}\u{440}\u{438}\u{432}\u{435}\u{442}");
}

#[test]
fn unicode_whitespace_after_code() {
    let r = resolve_translate("en\u{3000}text", &event(1, None)).unwrap();
    assert_eq!(r.target, Language::English);
    assert_eq!(r.query_text, "text");
}

#[test]
fn code_followed_by_newline() {
    let r = resolve_translate("de\nText", &event(1, None)).unwrap();
    assert_eq!(r.target, Language::German);
    assert_eq!(r.query_text, "Text");
}

#[test]
fn extra_spaces_after_code_stay_in_the_text() {
    let r = resolve_translate("en  two", &event(1, None)).unwrap();
    assert_eq!(r.query_text, " two");
}

#[test]
fn resolved_target_is_in_the_table() {
    for payload in ["en a", "de a", "fr a", "es a", "ru a", "ko a"] {
        let r = resolve_translate(payload, &event(1, None)).unwrap();
        assert_eq!(Language::parse_code(&r.target.code()), Some(r.target));
        assert_eq!(r.target.code(), &payload[0..2]);
    }
}

#[test]
fn split_of_command_text() {
    let (lang, text) = parse_command_text("es hola");
    assert_eq!(lang, Some(Language::Spanish));
    assert_eq!(text.as_deref(), Some("hola"));
    let (lang, text) = parse_command_text("ko");
    assert_eq!(lang, Some(Language::Korean));
    assert_eq!(text, None);
    let (lang, text) = parse_command_text("xyz");
    assert_eq!(lang, None);
    assert_eq!(text.as_deref(), Some(""));
}
