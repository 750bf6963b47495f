//! The fixed table of supported target languages.

use crate::text::chars_of;
use vstd::prelude::*;

verus! {

/// A language that translations can be requested into.
#[derive(Debug, Clone, Copy, PartialEq, Eq, Structural)]
pub enum Language {
    English,
    German,
    French,
    Spanish,
    Russian,
    Korean,
}

/// The two-letter code of a language.
pub open spec fn code_of(lang: Language) -> Seq<char> {
    match lang {
        Language::English => seq!['e', 'n'],
        Language::German => seq!['d', 'e'],
        Language::French => seq!['f', 'r'],
        Language::Spanish => seq!['e', 's'],
        Language::Russian => seq!['r', 'u'],
        Language::Korean => seq!['k', 'o'],
    }
}

/// The lower-case English name of a language.
pub open spec fn name_of(lang: Language) -> Seq<char> {
    match lang {
        Language::English => seq!['e', 'n', 'g', 'l', 'i', 's', 'h'],
        Language::German => seq!['g', 'e', 'r', 'm', 'a', 'n'],
        Language::French => seq!['f', 'r', 'e', 'n', 'c', 'h'],
        Language::Spanish => seq!['s', 'p', 'a', 'n', 'i', 's', 'h'],
        Language::Russian => seq!['r', 'u', 's', 's', 'i', 'a', 'n'],
        Language::Korean => seq!['k', 'o', 'r', 'e', 'a', 'n'],
    }
}

/// The flag shown for a language: two regional indicator symbols.
pub open spec fn emoji_of(lang: Language) -> Seq<char> {
    match lang {
        Language::English => seq!['\u{1F1EC}', '\u{1F1E7}'],
        Language::German => seq!['\u{1F1E9}', '\u{1F1EA}'],
        Language::French => seq!['\u{1F1EB}', '\u{1F1F7}'],
        Language::Spanish => seq!['\u{1F1EA}', '\u{1F1F8}'],
        Language::Russian => seq!['\u{1F1F7}', '\u{1F1FA}'],
        Language::Korean => seq!['\u{1F1F0}', '\u{1F1F7}'],
    }
}

/// The language whose code is exactly `code` (case-sensitive), if any.
pub open spec fn language_of(code: Seq<char>) -> Option<Language> {
    if code == code_of(Language::English) {
        Some(Language::English)
    } else if code == code_of(Language::German) {
        Some(Language::German)
    } else if code == code_of(Language::French) {
        Some(Language::French)
    } else if code == code_of(Language::Spanish) {
        Some(Language::Spanish)
    } else if code == code_of(Language::Russian) {
        Some(Language::Russian)
    } else if code == code_of(Language::Korean) {
        Some(Language::Korean)
    } else {
        None
    }
}

/// Whether `code` is in the table of supported codes.
pub open spec fn is_supported_code(code: Seq<char>) -> bool {
    exists|lang: Language| code_of(lang) == code
}

/// Looking a code up finds the language that has it, and only such a one.
pub proof fn lemma_language_of(code: Seq<char>)
    ensures
        language_of(code) matches Some(lang) ==> code_of(lang) == code,
        language_of(code) is None <==> !is_supported_code(code),
{
    if language_of(code) is None {
        assert forall|lang: Language| code_of(lang) != code by {
            match lang {
                Language::English => {},
                Language::German => {},
                Language::French => {},
                Language::Spanish => {},
                Language::Russian => {},
                Language::Korean => {},
            }
        }
    } else {
        let lang = language_of(code)->0;
        assert(code_of(lang) == code);
    }
}

/// Every language's own code finds it again.
pub proof fn lemma_code_round_trip(lang: Language)
    ensures
        language_of(code_of(lang)) == Some(lang),
{
    assert(code_of(Language::English) != code_of(Language::German));
    assert(code_of(Language::English) != code_of(Language::French));
    assert(code_of(Language::English) != code_of(Language::Spanish));
    assert(code_of(Language::English) != code_of(Language::Russian));
    assert(code_of(Language::English) != code_of(Language::Korean));
    assert(code_of(Language::German) != code_of(Language::French));
    assert(code_of(Language::German) != code_of(Language::Spanish));
    assert(code_of(Language::German) != code_of(Language::Russian));
    assert(code_of(Language::German) != code_of(Language::Korean));
    assert(code_of(Language::French) != code_of(Language::Spanish));
    assert(code_of(Language::French) != code_of(Language::Russian));
    assert(code_of(Language::French) != code_of(Language::Korean));
    assert(code_of(Language::Spanish) != code_of(Language::Russian));
    assert(code_of(Language::Spanish) != code_of(Language::Korean));
    assert(code_of(Language::Russian) != code_of(Language::Korean));
}

impl Language {
    /// The two-letter code, e.g. `en`.
    pub fn code(&self) -> (r: String)
        ensures
            r@ == code_of(*self),
    {
        let s = match self {
            Language::English => "en",
            Language::German => "de",
            Language::French => "fr",
            Language::Spanish => "es",
            Language::Russian => "ru",
            Language::Korean => "ko",
        };
        proof {
            reveal_strlit("en");
            reveal_strlit("de");
            reveal_strlit("fr");
            reveal_strlit("es");
            reveal_strlit("ru");
            reveal_strlit("ko");
        }
        s.to_owned()
    }

    /// The lower-case English name, e.g. `english`.
    pub fn name(&self) -> (r: String)
        ensures
            r@ == name_of(*self),
    {
        let s = match self {
            Language::English => "english",
            Language::German => "german",
            Language::French => "french",
            Language::Spanish => "spanish",
            Language::Russian => "russian",
            Language::Korean => "korean",
        };
        proof {
            reveal_strlit("english");
            reveal_strlit("german");
            reveal_strlit("french");
            reveal_strlit("spanish");
            reveal_strlit("russian");
            reveal_strlit("korean");
        }
        s.to_owned()
    }

    /// The flag of the language.
    pub fn emoji(&self) -> (r: String)
        ensures
            r@ == emoji_of(*self),
    {
        let s = match self {
            Language::English => "\u{1F1EC}\u{1F1E7}",
            Language::German => "\u{1F1E9}\u{1F1EA}",
            Language::French => "\u{1F1EB}\u{1F1F7}",
            Language::Spanish => "\u{1F1EA}\u{1F1F8}",
            Language::Russian => "\u{1F1F7}\u{1F1FA}",
            Language::Korean => "\u{1F1F0}\u{1F1F7}",
        };
        proof {
            reveal_strlit("\u{1F1EC}\u{1F1E7}");
            reveal_strlit("\u{1F1E9}\u{1F1EA}");
            reveal_strlit("\u{1F1EB}\u{1F1F7}");
            reveal_strlit("\u{1F1EA}\u{1F1F8}");
            reveal_strlit("\u{1F1F7}\u{1F1FA}");
            reveal_strlit("\u{1F1F0}\u{1F1F7}");
        }
        s.to_owned()
    }

    /// The language whose code is exactly `code`; `None` for anything else.
    pub fn parse_code(code: &str) -> (r: Option<Language>)
        ensures
            r == language_of(code@),
    {
        let cs = chars_of(code);
        if cs.len() != 2 {
            return None;
        }
        let a = cs[0];
        let b = cs[1];
        proof {
            assert(cs@ =~= seq![a, b]);
        }
        if a == 'e' && b == 'n' {
            Some(Language::English)
        } else if a == 'd' && b == 'e' {
            Some(Language::German)
        } else if a == 'f' && b == 'r' {
            Some(Language::French)
        } else if a == 'e' && b == 's' {
            Some(Language::Spanish)
        } else if a == 'r' && b == 'u' {
            Some(Language::Russian)
        } else if a == 'k' && b == 'o' {
            Some(Language::Korean)
        } else {
            None
        }
    }
}

} // verus!
