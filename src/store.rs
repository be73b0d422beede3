use vstd::prelude::*;
use std::collections::HashMap;
use crate::history::{DialogueCache, Interaction, UserState, DEFAULT_CAPACITY};

verus! {

broadcast use vstd::std_specs::hash::group_hash_axioms;

/// The histories of all conversations, keyed by conversation identifier.
pub struct ConversationStore {
    pub chats: HashMap<i64, UserState>,
}

impl ConversationStore {
    /// Every history held is within its capacity.
    pub open spec fn wf(&self) -> bool {
        forall|k: i64| #[trigger] self.chats@.contains_key(k) ==> self.chats@[k].dialogue_cache.wf()
    }

    /// A store with no conversation yet.
    pub fn new() -> (r: ConversationStore)
        ensures
            r.wf(),
            r.chats@ == Map::<i64, UserState>::empty(),
    {
        ConversationStore { chats: HashMap::new() }
    }

    /// Takes the state of conversation `chat` out of the store for the time a message is
    /// processed; a conversation seen for the first time gets an empty history with the
    /// default capacity.
    pub fn take_or_create(&mut self, chat: i64) -> (r: UserState)
        requires
            old(self).wf(),
        ensures
            final(self).wf(),
            final(self).chats@ == old(self).chats@.remove(chat),
            r.dialogue_cache.wf(),
            old(self).chats@.contains_key(chat) ==> r == old(self).chats@[chat],
            !old(self).chats@.contains_key(chat) ==> r.dialogue_cache@ == Seq::<Interaction>::empty()
                && r.dialogue_cache.max_size == DEFAULT_CAPACITY,
    {
        match self.chats.remove(&chat) {
            Some(state) => state,
            None => UserState { dialogue_cache: DialogueCache::new() },
        }
    }

    /// Puts the state of conversation `chat` back after a message was processed.
    pub fn put_back(&mut self, chat: i64, state: UserState)
        requires
            old(self).wf(),
            state.dialogue_cache.wf(),
        ensures
            final(self).wf(),
            final(self).chats@ == old(self).chats@.insert(chat, state),
    {
        self.chats.insert(chat, state);
    }
}

} // verus!
