use hilfmir::text::{is_blank, is_whitespace};

#[test]
fn blank_matches_std() {
    for s in ["", "   ", " a ", "\t\n\r\n", "\u{3000}\u{a0}", "\u{200b}", "no-trim", "\u{85}\u{2028}"] {
        assert_eq!(is_blank(s), s.trim().is_empty(), "{:?}", s);
    }
}

#[test]
fn whitespace_matches_std() {
    for c in ['\u{0}', '\t', '\n', '\u{b}', '\u{c}', '\r', ' ', 'a', '\u{85}', '\u{a0}', '\u{1680}',
              '\u{2000}', '\u{200a}', '\u{200b}', '\u{2028}', '\u{2029}', '\u{202f}', '\u{205f}',
              '\u{3000}', '\u{feff}', '\u{180e}', '\u{1c}', '\u{1f}'] {
        assert_eq!(is_whitespace(c), c.is_whitespace(), "{:?}", c);
    }
}
