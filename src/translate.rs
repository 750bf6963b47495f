//! The request sent to the translation service and what comes back.

use crate::error::AppError;
use vstd::prelude::*;

verus! {

/// The query parameters of one translation request.
#[derive(Debug, Clone)]
pub struct TranslateQuery {
    pub q: String,
    pub target: String,
    pub source: Option<String>,
    pub format: String,
    pub model: String,
    pub key: String,
}

impl TranslateQuery {
    /// A plain-text query with the base model, into English and with the
    /// source language left to detection.
    pub fn new(query: &str, api_key: &str) -> (r: TranslateQuery)
        ensures
            r.q@ == query@,
            r.key@ == api_key@,
            r.target@ == "en"@,
            r.source is None,
            r.format@ == "text"@,
            r.model@ == "base"@,
    {
        TranslateQuery {
            q: query.to_owned(),
            target: String::from_str("en"),
            source: None,
            format: String::from_str("text"),
            model: String::from_str("base"),
            key: api_key.to_owned(),
        }
    }

    /// The same query with the given source language.
    pub fn set_source(self, source: String) -> (r: TranslateQuery)
        ensures
            r.source == Some(source),
            r.q == self.q,
            r.target == self.target,
            r.format == self.format,
            r.model == self.model,
            r.key == self.key,
    {
        TranslateQuery { source: Some(source), ..self }
    }

    /// The same query with the given target language.
    pub fn set_target(self, target: String) -> (r: TranslateQuery)
        ensures
            r.target == target,
            r.q == self.q,
            r.source == self.source,
            r.format == self.format,
            r.model == self.model,
            r.key == self.key,
    {
        TranslateQuery { target, ..self }
    }
}

/// One translation returned by the service.
#[derive(Debug, Clone)]
pub struct Translation {
    pub translated_text: String,
    pub detected_source_language: Option<String>,
    pub model: String,
}

/// The query for translating `query` into `target`, from `source` where one is given.
pub fn build_query(query: &str, api_key: &str, target: &str, source: Option<&str>) -> (r:
    TranslateQuery)
    ensures
        r.q@ == query@,
        r.key@ == api_key@,
        r.target@ == target@,
        source matches Some(s) ==> r.source matches Some(t) && t@ == s@,
        source is None ==> r.source is None,
        r.format@ == "text"@,
        r.model@ == "base"@,
{
    let query = TranslateQuery::new(query, api_key).set_target(target.to_owned());
    match source {
        Some(s) => query.set_source(s.to_owned()),
        None => query,
    }
}

/// The decimal digit for `d`.
pub open spec fn digit_char(d: u16) -> char {
    match d {
        0 => '0',
        1 => '1',
        2 => '2',
        3 => '3',
        4 => '4',
        5 => '5',
        6 => '6',
        7 => '7',
        8 => '8',
        _ => '9',
    }
}

/// `n` written in decimal, without leading zeros.
pub open spec fn decimal_text(n: nat) -> Seq<char>
    decreases n,
{
    if n < 10 {
        seq![digit_char(n as u16)]
    } else {
        decimal_text(n / 10).push(digit_char((n % 10) as u16))
    }
}

fn digit_str(d: u16) -> (r: &'static str)
    requires
        d < 10,
    ensures
        r@ == seq![digit_char(d)],
{
    proof {
        reveal_strlit("0");
        reveal_strlit("1");
        reveal_strlit("2");
        reveal_strlit("3");
        reveal_strlit("4");
        reveal_strlit("5");
        reveal_strlit("6");
        reveal_strlit("7");
        reveal_strlit("8");
        reveal_strlit("9");
    }
    let r = match d {
        0 => "0",
        1 => "1",
        2 => "2",
        3 => "3",
        4 => "4",
        5 => "5",
        6 => "6",
        7 => "7",
        8 => "8",
        _ => "9",
    };
    assert(r@ =~= seq![digit_char(d)]);
    r
}

/// `n` written in decimal.
pub fn to_decimal(n: u16) -> (r: String)
    ensures
        r@ == decimal_text(n as nat),
    decreases n,
{
    if n < 10 {
        String::from_str(digit_str(n))
    } else {
        let head = to_decimal(n / 10);
        let r = head.concat(digit_str(n % 10));
        assert(r@ =~= decimal_text(n as nat));
        r
    }
}

/// How an HTTP status is shown: its code, a space and its reason phrase.
pub open spec fn status_line(status: u16, reason: Seq<char>) -> Seq<char> {
    decimal_text(status as nat) + seq![' '] + reason
}

/// Accepts only status 200; any other status is an error that names the
/// status code and its reason phrase.
pub fn check_status(status: u16, reason: &str) -> (r: Result<(), AppError>)
    ensures
        r is Ok <==> status == 200,
        r matches Err(e) ==> e.msg@ == "Google Cloud Translate Error: "@ + status_line(status, reason@),
{
    if status == 200 {
        Ok(())
    } else {
        let msg = String::from_str("Google Cloud Translate Error: ").concat(
            to_decimal(status).as_str(),
        ).concat(" ").concat(reason);
        proof {
            reveal_strlit(" ");
            assert(msg@ =~= "Google Cloud Translate Error: "@ + status_line(status, reason@));
        }
        Err(AppError { msg })
    }
}

/// The first of the returned translations; an error where there is none.
pub fn first_translation(translations: Vec<Translation>) -> (r: Result<Translation, AppError>)
    ensures
        r is Ok <==> translations@.len() > 0,
        r matches Ok(t) ==> t == translations@[0],
        r matches Err(e) ==> e.msg@ == "Bad Response: Translations are missing"@,
{
    let mut translations = translations;
    if translations.len() == 0 {
        Err(AppError { msg: String::from_str("Bad Response: Translations are missing") })
    } else {
        Ok(translations.remove(0))
    }
}

} // verus!
