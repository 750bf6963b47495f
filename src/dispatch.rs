//! The decisions of the dispatcher: for each inbound event what to send, and
//! what to reply once a translation has come back.

use crate::auth::Auth;
use crate::commands::{
    command_of, resolution, resolve_translate, Command, CommandView, ResolveError, ResolvedRequest,
};
use crate::error::AppError;
use crate::event::{reply_target_of, reply_text_of, InboundEvent};
use crate::language::{emoji_of, language_of, Language};
use crate::translate::Translation;
use vstd::prelude::*;

verus! {

/// A message to send to a chat, threaded under an earlier message where given.
#[derive(Debug, Clone)]
pub struct Outgoing {
    pub chat_id: i64,
    pub reply_to_message_id: Option<i32>,
    pub text: String,
}

/// What the dispatcher does about one event.
#[derive(Debug)]
pub enum Action {
    /// The chat is not allowed: nothing is sent.
    Drop,
    /// The event holds no command for this bot: nothing is sent.
    Ignore,
    /// Send the list of commands to the chat.
    SendHelp { chat_id: i64 },
    /// Send this message.
    Send(Outgoing),
    /// Ask the translation service for this request, then reply in the chat.
    Translate { chat_id: i64, request: ResolvedRequest },
    /// The translation failed: the error is logged and nothing is sent.
    Fail(AppError),
}

/// The text sent back for a command that could not be resolved.
pub open spec fn error_text(e: ResolveError) -> Seq<char> {
    match e {
        ResolveError::InvalidLanguageCode => "Invalid target language.\nValid languages: en, de, fr, es, ru, ko"@,
        ResolveError::MissingQueryText => "No text provided. Reply to a message or write text after the command \ne.g. `/t en some text`"@,
    }
}

impl ResolveError {
    /// The message that tells the user what went wrong.
    pub fn user_message(&self) -> (r: String)
        ensures
            r@ == error_text(*self),
    {
        match self {
            ResolveError::InvalidLanguageCode => String::from_str(
                "Invalid target language.\nValid languages: en, de, fr, es, ru, ko",
            ),
            ResolveError::MissingQueryText => String::from_str(
                "No text provided. Reply to a message or write text after the command \ne.g. `/t en some text`",
            ),
        }
    }
}

/// The payload of a translate command, if `c` is one.
pub open spec fn translate_payload(c: CommandView) -> Option<Seq<char>> {
    match c {
        CommandView::Translate(p) => Some(p),
        CommandView::T(p) => Some(p),
        CommandView::Help => None,
    }
}

/// The command that `e` holds for the bot named `bot_name`.
pub open spec fn event_command(e: InboundEvent, bot_name: Seq<char>) -> Option<CommandView> {
    match e.text {
        Some(t) => command_of(t@, bot_name),
        None => None,
    }
}

/// Decides what to do about `event`: drop it where its chat is not allowed,
/// ignore it where it holds no command for the bot named `bot_name`, and
/// otherwise answer the command.
pub fn decide(auth: &Auth, bot_name: &str, event: &InboundEvent) -> (r: Action)
    ensures
        !auth@.contains_key(event.chat_id) <==> r is Drop,
        auth@.contains_key(event.chat_id) ==> {
            match event_command(*event, bot_name@) {
                None => r is Ignore,
                Some(CommandView::Help) => r == (Action::SendHelp { chat_id: event.chat_id }),
                Some(c) => match resolution(translate_payload(c)->0, reply_text_of(*event)) {
                    Ok((lang, q)) => r matches Action::Translate { chat_id, request } && chat_id
                        == event.chat_id && request.target == lang && request.query_text@ == q
                        && request.reply_to_message_id == reply_target_of(*event),
                    Err(e) => r matches Action::Send(out) && out.chat_id == event.chat_id
                        && out.reply_to_message_id == Some(reply_target_of(*event)) && out.text@
                        == error_text(e),
                },
            }
        },
{
    if !auth.message_is_authorized(event) {
        return Action::Drop;
    }
    let text = match &event.text {
        Some(t) => t,
        None => {
            return Action::Ignore;
        },
    };
    let command = Command::parse(text.as_str(), bot_name);
    let payload = match &command {
        None => {
            return Action::Ignore;
        },
        Some(Command::Help) => {
            return Action::SendHelp { chat_id: event.chat_id };
        },
        Some(Command::Translate(p)) => p,
        Some(Command::T(p)) => p,
    };
    match resolve_translate(payload.as_str(), event) {
        Ok(request) => Action::Translate { chat_id: event.chat_id, request },
        Err(e) => Action::Send(
            Outgoing {
                chat_id: event.chat_id,
                reply_to_message_id: Some(event.reply_target()),
                text: e.user_message(),
            },
        ),
    }
}

/// The flag of the detected source language, where it is in the table;
/// nothing otherwise.
pub open spec fn detected_flag(detected: Option<Seq<char>>) -> Seq<char> {
    match detected {
        Some(code) => match language_of(code) {
            Some(lang) => emoji_of(lang),
            None => Seq::empty(),
        },
        None => Seq::empty(),
    }
}

/// The arrow between the source and target flags.
pub open spec fn arrow() -> Seq<char> {
    seq!['\u{27A1}', '\u{FE0F}']
}

/// The reply for a translation into `target`: the source flag (if known),
/// an arrow, the target flag, a line break and the translated text.
pub open spec fn reply_text(target: Language, detected: Option<Seq<char>>, translated: Seq<char>) -> Seq<char> {
    detected_flag(detected) + arrow() + emoji_of(target) + seq!['\n'] + translated
}

/// The view of an optional string.
pub open spec fn opt_view(s: Option<String>) -> Option<Seq<char>> {
    match s {
        Some(t) => Some(t@),
        None => None,
    }
}

/// Formats the reply for a translation into `target`.
pub fn format_reply(target: Language, translation: &Translation) -> (r: String)
    ensures
        r@ == reply_text(
            target,
            opt_view(translation.detected_source_language),
            translation.translated_text@,
        ),
{
    let flag = match &translation.detected_source_language {
        Some(code) => match Language::parse_code(code.as_str()) {
            Some(lang) => lang.emoji(),
            None => String::new(),
        },
        None => String::new(),
    };
    let target_flag = target.emoji();
    let r = flag.concat("\u{27A1}\u{FE0F}").concat(target_flag.as_str()).concat("\n").concat(
        translation.translated_text.as_str(),
    );
    proof {
        reveal_strlit("\u{27A1}\u{FE0F}");
        reveal_strlit("\n");
        assert(r@ =~= reply_text(
            target,
            opt_view(translation.detected_source_language),
            translation.translated_text@,
        ));
    }
    r
}

/// What follows a translation call for `request` made for the chat
/// `chat_id`: the reply threaded under the request's message, or, where the
/// service failed, the failure (logged; nothing is sent).
pub fn after_translation(chat_id: i64, request: &ResolvedRequest, result: Result<Translation, AppError>) -> (r: Action)
    ensures
        result matches Ok(t) ==> r matches Action::Send(out) && out.chat_id == chat_id
            && out.reply_to_message_id == Some(request.reply_to_message_id) && out.text@
            == reply_text(
            request.target,
            opt_view(t.detected_source_language),
            t.translated_text@,
        ),
        result matches Err(e) ==> r == Action::Fail(e),
{
    match result {
        Ok(t) => Action::Send(
            Outgoing {
                chat_id,
                reply_to_message_id: Some(request.reply_to_message_id),
                text: format_reply(request.target, &t),
            },
        ),
        Err(e) => Action::Fail(e),
    }
}

} // verus!
