use hilfmir::translate::to_decimal;
use hilfmir::{build_query, check_status, first_translation, AppError, TranslateQuery, Translation};

#[test]
fn new_query_defaults() {
    let q = TranslateQuery::new("Hallo", "key1");
    assert_eq!(q.q, "Hallo");
    assert_eq!(q.key, "key1");
    assert_eq!(q.target, "en");
    assert_eq!(q.source, None);
    assert_eq!(q.format, "text");
    assert_eq!(q.model, "base");
}

#[test]
fn setters_replace_one_field() {
    let q = TranslateQuery::new("Hallo", "k").set_target("fr".to_string()).set_source("de".to_string());
    assert_eq!(q.target, "fr");
    assert_eq!(q.source.as_deref(), Some("de"));
    assert_eq!(q.q, "Hallo");
}

#[test]
fn query_for_a_request() {
    let q = build_query("Bonjour", "k", "ru", None);
    assert_eq!(q.target, "ru");
    assert_eq!(q.source, None);
    let q = build_query("Bonjour", "k", "ru", Some("fr"));
    assert_eq!(q.source.as_deref(), Some("fr"));
}

#[test]
fn non_200_status_is_an_error() {
    assert!(check_status(200, "OK").is_ok());
    assert_eq!(
        check_status(500, "Internal Server Error").unwrap_err().msg,
        "Google Cloud Translate Error: 500 Internal Server Error"
    );
    assert_eq!(check_status(204, "No Content").unwrap_err().msg, "Google Cloud Translate Error: 204 No Content");
    assert_eq!(check_status(0, "x").unwrap_err().msg, "Google Cloud Translate Error: 0 x");
}

#[test]
fn empty_translations_are_an_error() {
    assert_eq!(first_translation(vec![]).unwrap_err().msg, "Bad Response: Translations are missing");
}

#[test]
fn first_translation_is_taken() {
    let t = |s: &str| Translation { translated_text: s.to_string(), detected_source_language: None, model: "base".to_string() };
    assert_eq!(first_translation(vec![t("one"), t("two")]).unwrap().translated_text, "one");
}

#[test]
fn error_display_text() {
    assert_eq!(AppError::new("boom".to_string()).to_string(), "Error: boom");
}

#[test]
fn decimal_text_of_codes() {
    for n in [0u16, 7, 10, 99, 100, 500, 1000, 65535] {
        assert_eq!(to_decimal(n), n.to_string());
    }
}
