//! Resolving a translate command to a target language and a query text.

use crate::event::{reply_target_of, reply_text_of, InboundEvent};
use crate::language::{code_of, is_supported_code, language_of, lemma_language_of, Language};
use crate::text::{
    chars_of, eq_ignoring_ascii_case, find_char, index_of, is_blank, slice_eq,
    slice_eq_ignore_ascii_case, trim, trim_bounds,
};
use vstd::prelude::*;

verus! {

/// The part of a payload that names the target language: the first three
/// characters of the trimmed payload (fewer if it is shorter), trimmed.
pub open spec fn code_part(payload: Seq<char>) -> Seq<char> {
    let p = trim(payload);
    trim(p.take(if p.len() < 3 { p.len() as int } else { 3 }))
}

/// The text written after the code: the trimmed payload from its fourth
/// character on, or nothing where it is shorter than three characters.
pub open spec fn inline_text(payload: Seq<char>) -> Option<Seq<char>> {
    let p = trim(payload);
    if p.len() >= 3 {
        Some(p.skip(3))
    } else {
        None
    }
}

/// The text to translate: a non-empty replied-to text wins over inline text.
pub open spec fn query_of(payload: Seq<char>, reply: Option<Seq<char>>) -> Option<Seq<char>> {
    if reply matches Some(t) && t.len() > 0 {
        reply
    } else {
        inline_text(payload)
    }
}

/// A command that the bot understands.
#[derive(Debug, Clone)]
pub enum Command {
    /// `/help`: show the list of commands.
    Help,
    /// `/translate <code> <text>`: translate into the language of `<code>`.
    Translate(String),
    /// `/t`: shorthand for `/translate`.
    T(String),
}

/// A command with its argument as a sequence of characters.
pub enum CommandView {
    Help,
    Translate(Seq<char>),
    T(Seq<char>),
}

impl View for Command {
    type V = CommandView;

    open spec fn view(&self) -> CommandView {
        match self {
            Command::Help => CommandView::Help,
            Command::Translate(s) => CommandView::Translate(s@),
            Command::T(s) => CommandView::T(s@),
        }
    }
}

/// The first word of a message: everything before its first space.
pub open spec fn command_word(text: Seq<char>) -> Seq<char> {
    text.take(index_of(text, ' ') as int)
}

/// Everything after the first space of a message; empty where there is none.
pub open spec fn command_args(text: Seq<char>) -> Seq<char> {
    let sp = index_of(text, ' ');
    if sp < text.len() {
        text.skip(sp + 1 as int)
    } else {
        Seq::empty()
    }
}

/// The command name: the first word up to its first `@`.
pub open spec fn command_name(text: Seq<char>) -> Seq<char> {
    let w = command_word(text);
    w.take(index_of(w, '@') as int)
}

/// The bot named after the first `@` of the first word (up to a second `@`),
/// if the word has an `@`.
pub open spec fn mentioned_bot(text: Seq<char>) -> Option<Seq<char>> {
    let w = command_word(text);
    let at = index_of(w, '@');
    if at < w.len() {
        let rest = w.skip(at + 1 as int);
        Some(rest.take(index_of(rest, '@') as int))
    } else {
        None
    }
}

/// The command that `text` holds for the bot named `bot_name`: a known name,
/// and no mention of another bot (names compare up to ASCII case).
pub open spec fn command_of(text: Seq<char>, bot_name: Seq<char>) -> Option<CommandView> {
    let name = command_name(text);
    if mentioned_bot(text) matches Some(b) && !eq_ignoring_ascii_case(b, bot_name) {
        None
    } else if name == seq!['/', 'h', 'e', 'l', 'p'] {
        Some(CommandView::Help)
    } else if name == seq!['/', 't', 'r', 'a', 'n', 's', 'l', 'a', 't', 'e'] {
        Some(CommandView::Translate(command_args(text)))
    } else if name == seq!['/', 't'] {
        Some(CommandView::T(command_args(text)))
    } else {
        None
    }
}

impl Command {
    /// Reads a command out of the text of a message sent to the bot named
    /// `bot_name`; `None` where the text holds no command for it.
    pub fn parse(text: &str, bot_name: &str) -> (r: Option<Command>)
        ensures
            r matches Some(c) ==> command_of(text@, bot_name@) == Some(c@),
            r is None ==> command_of(text@, bot_name@) is None,
    {
        let cs = chars_of(text);
        let n = cs.len();
        let sp = find_char(&cs, ' ', 0, n);
        let at = find_char(&cs, '@', 0, sp);
        let ghost w = command_word(text@);
        assert(cs@.subrange(0, n as int) =~= text@);
        assert(cs@.subrange(0, sp as int) =~= w);
        if at < sp {
            let end = find_char(&cs, '@', at + 1, sp);
            assert(cs@.subrange(at + 1, sp as int) =~= w.skip(at + 1));
            let bot = chars_of(bot_name);
            assert(cs@.subrange(at + 1, end as int) =~= w.skip(at + 1).take(end - (at + 1)));
            if !slice_eq_ignore_ascii_case(&cs, at + 1, end, &bot) {
                return None;
            }
            assert(mentioned_bot(text@) == Some(cs@.subrange(at + 1, end as int)));
        } else {
            assert(mentioned_bot(text@) is None);
        }
        assert(cs@.subrange(0, at as int) =~= command_name(text@));
        let args = if sp < n {
            assert(cs@.subrange(sp + 1, n as int) =~= text@.skip(sp + 1));
            text.substring_char(sp + 1, n).to_owned()
        } else {
            String::new()
        };
        assert(args@ =~= command_args(text@));
        let help = chars_of("/help");
        let translate = chars_of("/translate");
        let short = chars_of("/t");
        proof {
            reveal_strlit("/help");
            reveal_strlit("/translate");
            reveal_strlit("/t");
            assert(help@ =~= seq!['/', 'h', 'e', 'l', 'p']);
            assert(translate@ =~= seq!['/', 't', 'r', 'a', 'n', 's', 'l', 'a', 't', 'e']);
            assert(short@ =~= seq!['/', 't']);
        }
        if slice_eq(&cs, 0, at, &help) {
            Some(Command::Help)
        } else if slice_eq(&cs, 0, at, &translate) {
            Some(Command::Translate(args))
        } else if slice_eq(&cs, 0, at, &short) {
            Some(Command::T(args))
        } else {
            None
        }
    }
}

/// Why a translate command could not be resolved.
#[derive(Debug, Clone, Copy, PartialEq, Eq, Structural)]
pub enum ResolveError {
    /// The payload does not start with a supported language code.
    InvalidLanguageCode,
    /// Neither a replied-to message nor the payload gives text to translate.
    MissingQueryText,
}

/// The outcome of resolving `payload` with the replied-to text `reply`:
/// the target language and the query text, or the error.
pub open spec fn resolution(payload: Seq<char>, reply: Option<Seq<char>>) -> Result<
    (Language, Seq<char>),
    ResolveError,
> {
    let q = query_of(payload, reply);
    match language_of(code_part(payload)) {
        None => Err(ResolveError::InvalidLanguageCode),
        Some(lang) => match q {
            Some(t) => if trim(t).len() > 0 {
                Ok((lang, t))
            } else {
                Err(ResolveError::MissingQueryText)
            },
            None => Err(ResolveError::MissingQueryText),
        },
    }
}

/// A translate command that is ready to be sent to the translation service.
#[derive(Debug, Clone)]
pub struct ResolvedRequest {
    pub target: Language,
    pub query_text: String,
    pub reply_to_message_id: i32,
}

/// Splits a trimmed command payload into the language that its code names
/// and the text after the code.
pub fn parse_command_text(cmd_text: &str) -> (r: (Option<Language>, Option<String>))
    ensures
        r.0 == language_of(code_part(cmd_text@)),
        r.1 matches Some(t) ==> inline_text(cmd_text@) == Some(t@),
        r.1 is None ==> inline_text(cmd_text@) is None,
{
    let cs = chars_of(cmd_text);
    let (a, b) = trim_bounds(&cs, 0, cs.len());
    let ghost p = trim(cmd_text@);
    assert(cs@.subrange(0, cs@.len() as int) =~= cs@);
    let k: usize = if b - a < 3 {
        b - a
    } else {
        3
    };
    let (c0, c1) = trim_bounds(&cs, a, a + k);
    assert(cs@.subrange(a as int, (a + k) as int) =~= p.take(k as int));
    let code = cmd_text.substring_char(c0, c1);
    let lang = Language::parse_code(code);
    let text = if b - a >= 3 {
        assert(cs@.subrange((a + 3) as int, b as int) =~= p.skip(3));
        Some(cmd_text.substring_char(a + 3, b).to_owned())
    } else {
        None
    };
    (lang, text)
}

/// Resolves the payload of a translate command sent in `event`.
///
/// The payload must start with a supported language code; the text comes
/// from the replied-to message where that has text, else from the payload;
/// it must not be blank. The reply is threaded under the replied-to message
/// where there is one, else under `event` itself.
pub fn resolve_translate(payload: &str, event: &InboundEvent) -> (r: Result<
    ResolvedRequest,
    ResolveError,
>)
    ensures
        r matches Ok(req) ==> {
            &&& resolution(payload@, reply_text_of(*event)) == Ok::<_, ResolveError>(
                (req.target, req.query_text@),
            )
            &&& req.reply_to_message_id == reply_target_of(*event)
        },
        r matches Err(e) ==> resolution(payload@, reply_text_of(*event)) == Err::<
            (Language, Seq<char>),
            _,
        >(e),
{
    let (lang, inline) = parse_command_text(payload);
    let target = match lang {
        Some(l) => l,
        None => {
            return Err(ResolveError::InvalidLanguageCode);
        },
    };
    let query: Option<String> = match event.reply_text() {
        Some(t) if !t.is_empty() => Some(t.to_owned()),
        _ => inline,
    };
    match query {
        Some(q) => {
            if is_blank(q.as_str()) {
                Err(ResolveError::MissingQueryText)
            } else {
                Ok(ResolvedRequest {
                    target,
                    query_text: q,
                    reply_to_message_id: event.reply_target(),
                })
            }
        },
        None => Err(ResolveError::MissingQueryText),
    }
}

/// A payload whose leading code is not in the table is rejected with
/// `InvalidLanguageCode`, whatever text follows it and whatever message it
/// replies to.
pub proof fn lemma_unknown_code_rejected(payload: Seq<char>, reply: Option<Seq<char>>)
    requires
        !is_supported_code(code_part(payload)),
    ensures
        resolution(payload, reply) == Err::<(Language, Seq<char>), _>(
            ResolveError::InvalidLanguageCode,
        ),
{
    lemma_language_of(code_part(payload));
}

/// Where the replied-to message has non-empty text, that text is the query,
/// even when the payload carries inline text too; with a supported code and
/// a text that is not blank the command resolves.
pub proof fn lemma_reply_text_wins(payload: Seq<char>, reply_text: Seq<char>)
    requires
        reply_text.len() > 0,
    ensures
        resolution(payload, Some(reply_text)) matches Ok(res) ==> res.1 == reply_text,
        is_supported_code(code_part(payload)) && trim(reply_text).len() > 0 ==> resolution(
            payload,
            Some(reply_text),
        ) == Ok::<_, ResolveError>((language_of(code_part(payload))->0, reply_text)),
{
    lemma_language_of(code_part(payload));
}

/// A supported code with nothing but whitespace after it, and no replied-to
/// text, yields `MissingQueryText`.
pub proof fn lemma_missing_text(payload: Seq<char>)
    requires
        is_supported_code(code_part(payload)),
        inline_text(payload) matches Some(t) ==> trim(t).len() == 0,
    ensures
        resolution(payload, None) == Err::<(Language, Seq<char>), _>(
            ResolveError::MissingQueryText,
        ),
{
    lemma_language_of(code_part(payload));
}

/// A resolved target is always a language of the table, and its code is the
/// code that the payload starts with.
pub proof fn lemma_target_is_supported(payload: Seq<char>, reply: Option<Seq<char>>)
    ensures
        resolution(payload, reply) matches Ok(res) ==> {
            &&& is_supported_code(code_of(res.0))
            &&& code_of(res.0) == code_part(payload)
            &&& language_of(code_of(res.0)) == Some(res.0)
        },
{
    lemma_language_of(code_part(payload));
    if let Ok(res) = resolution(payload, reply) {
        crate::language::lemma_code_round_trip(res.0);
    }
}

} // verus!
