//! Inbound chat events, as the dispatcher sees them.

use vstd::prelude::*;

verus! {

/// An earlier message that an inbound message replies to.
#[derive(Debug, Clone)]
pub struct EarlierMessage {
    pub message_id: i32,
    pub text: Option<String>,
}

/// One message delivered by the platform.
#[derive(Debug, Clone)]
pub struct InboundEvent {
    pub chat_id: i64,
    pub message_id: i32,
    pub text: Option<String>,
    pub reply_to: Option<EarlierMessage>,
}

/// The text of the message that `e` replies to, if it replies to one with text.
pub open spec fn reply_text_of(e: InboundEvent) -> Option<Seq<char>> {
    match e.reply_to {
        Some(m) => match m.text {
            Some(t) => Some(t@),
            None => None,
        },
        None => None,
    }
}

/// The message under which a reply to `e` is threaded: the replied-to
/// message if there is one, else `e` itself.
pub open spec fn reply_target_of(e: InboundEvent) -> i32 {
    match e.reply_to {
        Some(m) => m.message_id,
        None => e.message_id,
    }
}

impl InboundEvent {
    /// The text of the replied-to message, if any.
    pub fn reply_text(&self) -> (r: Option<&str>)
        ensures
            r matches Some(t) ==> reply_text_of(*self) == Some(t@),
            r is None ==> reply_text_of(*self) is None,
    {
        match &self.reply_to {
            Some(m) => match &m.text {
                Some(t) => Some(t.as_str()),
                None => None,
            },
            None => None,
        }
    }

    /// The id of the message a reply should be threaded under.
    pub fn reply_target(&self) -> (r: i32)
        ensures
            r == reply_target_of(*self),
    {
        match &self.reply_to {
            Some(m) => m.message_id,
            None => self.message_id,
        }
    }
}

} // verus!
