//! Which chats may use the bot.

use crate::config::{AllowedChat, Config};
use crate::event::InboundEvent;
use std::collections::HashMap;
use vstd::prelude::*;

verus! {

broadcast use vstd::std_specs::hash::group_hash_axioms;

/// The allowed chats by id, each with its display name; where an id is
/// listed twice, the later entry wins.
pub open spec fn allowed_map(chats: Seq<AllowedChat>) -> Map<i64, String>
    decreases chats.len(),
{
    if chats.len() == 0 {
        Map::empty()
    } else {
        allowed_map(chats.drop_last()).insert(chats.last().id, chats.last().name)
    }
}

/// Decides which chats may use the bot.
pub struct Auth {
    allowed_chats: HashMap<i64, String>,
}

impl View for Auth {
    type V = Map<i64, String>;

    closed spec fn view(&self) -> Map<i64, String> {
        self.allowed_chats@
    }
}

impl Auth {
    /// An authorizer for the chats that `config` allows.
    pub fn new(config: &Config) -> (r: Auth)
        ensures
            r@ == allowed_map(config.allowed_chats@),
    {
        let chats = &config.allowed_chats;
        let mut m: HashMap<i64, String> = HashMap::new();
        for i in 0..chats.len()
            invariant
                m@ == allowed_map(chats@.take(i as int)),
        {
            assert(chats@.take(i + 1).drop_last() =~= chats@.take(i as int));
            m.insert(chats[i].id, chats[i].name.clone());
        }
        assert(chats@.take(chats@.len() as int) =~= chats@);
        Auth { allowed_chats: m }
    }

    /// Whether the chat that `message` comes from is allowed.
    pub fn message_is_authorized(&self, message: &InboundEvent) -> (r: bool)
        ensures
            r == self@.contains_key(message.chat_id),
    {
        self.allowed_chats.contains_key(&message.chat_id)
    }

    /// The display name of an allowed chat.
    pub fn get_chat_name(&self, chat_id: i64) -> (r: Option<String>)
        ensures
            r matches Some(name) ==> self@.contains_key(chat_id) && name@ == self@[chat_id]@,
            r is None ==> !self@.contains_key(chat_id),
    {
        match self.allowed_chats.get(&chat_id) {
            Some(name) => Some(name.clone()),
            None => None,
        }
    }
}

/// A chat that the configuration does not list is never authorized.
pub proof fn lemma_unlisted_chat_rejected(chats: Seq<AllowedChat>, chat_id: i64)
    requires
        forall|k: int| 0 <= k < chats.len() ==> (#[trigger] chats[k]).id != chat_id,
    ensures
        !allowed_map(chats).contains_key(chat_id),
    decreases chats.len(),
{
    if chats.len() > 0 {
        let rest = chats.drop_last();
        assert forall|k: int| 0 <= k < rest.len() implies (#[trigger] rest[k]).id != chat_id by {
            assert(rest[k] == chats[k]);
        }
        lemma_unlisted_chat_rejected(rest, chat_id);
    }
}

} // verus!
