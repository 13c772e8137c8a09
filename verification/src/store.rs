//! The session store: one map from chat identity to authentication token and
//! one map from outbound-message identity to the last backend payload. The
//! two maps are independent; callers that need mutual exclusion wrap each in
//! its own lock, and every operation here is a single short map access.

use std::collections::HashMap;
use vstd::prelude::*;

use crate::payload::Payload;

verus! {

broadcast use vstd::std_specs::hash::group_hash_axioms;

/// The per-chat credential map. A chat holds at most one token at a time;
/// setting a new one fully replaces the old.
pub struct CredStore {
    map: HashMap<i64, String>,
}

impl View for CredStore {
    type V = Map<i64, String>;

    closed spec fn view(&self) -> Map<i64, String> {
        self.map@
    }
}

impl CredStore {
    /// A store with no credentials.
    pub fn new() -> (s: Self)
        ensures
            s@ == Map::<i64, String>::empty(),
    {
        CredStore { map: HashMap::new() }
    }

    /// Overwrites the token for a chat. The new token is visible to every
    /// later lookup; there is no error condition.
    pub fn set_credential(&mut self, chat: i64, token: String)
        ensures
            final(self)@ == old(self)@.insert(chat, token),
    {
        self.map.insert(chat, token);
    }

    /// The token for a chat, or `None` when none was ever set. On `None` the
    /// caller must refuse to proceed and tell the end user a credential is
    /// required.
    pub fn get_credential(&self, chat: i64) -> (r: Option<String>)
        ensures
            r matches Some(t) ==> self@.contains_key(chat) && t == self@[chat],
            r is None ==> !self@.contains_key(chat),
    {
        match self.map.get(&chat) {
            Some(t) => Some(t.clone()),
            None => None,
        }
    }
}

/// The outcome of taking an entry: the payload handed out (the empty
/// document when the identifier is absent) and the map afterwards.
pub open spec fn spec_take(m: Map<i64, Payload>, msg: i64) -> (Payload, Map<i64, Payload>) {
    if m.contains_key(msg) {
        (m[msg], m.remove(msg))
    } else {
        (Payload::spec_empty(), m)
    }
}

/// The pending-exchange map: identifier of a message the bot sent, to the
/// last backend payload of that exchange. An entry is written once when an
/// exchange finishes and removed when a later message replies to it.
pub struct PayloadStore {
    map: HashMap<i64, Payload>,
}

impl View for PayloadStore {
    type V = Map<i64, Payload>;

    closed spec fn view(&self) -> Map<i64, Payload> {
        self.map@
    }
}

impl PayloadStore {
    /// A store with no pending exchanges.
    pub fn new() -> (s: Self)
        ensures
            s@ == Map::<i64, Payload>::empty(),
    {
        PayloadStore { map: HashMap::new() }
    }

    /// Removes and returns the payload stored for a sent message. An absent
    /// identifier is not an error: the result is the empty document and the
    /// store is unchanged.
    pub fn take_last_payload(&mut self, msg: i64) -> (r: Payload)
        ensures
            r == spec_take(old(self)@, msg).0,
            final(self)@ == spec_take(old(self)@, msg).1,
    {
        match self.map.remove(&msg) {
            Some(p) => p,
            None => {
                proof {
                    assert(old(self)@.remove(msg) =~= old(self)@);
                }
                Payload::empty()
            },
        }
    }

    /// Associates a just-sent message with the terminal payload of its
    /// exchange. The payload's continuation identifier is stripped first, so
    /// the next turn starts a new upstream query.
    pub fn store_last_payload(&mut self, msg: i64, payload: Payload)
        ensures
            final(self)@ == old(self)@.insert(msg, payload.spec_without_id()),
    {
        let clean = payload.without_id();
        self.map.insert(msg, clean);
    }
}

/// After a credential is set, getting it returns exactly that token, and a
/// later set for the same chat fully replaces it — the tokens never merge.
pub proof fn lemma_set_then_get(m: Map<i64, String>, chat: i64, t: String, t2: String)
    ensures
        m.insert(chat, t).contains_key(chat),
        m.insert(chat, t)[chat] == t,
        m.insert(chat, t).insert(chat, t2)[chat] == t2,
{
}

/// A set for one chat leaves every other chat's credential as it was.
pub proof fn lemma_set_other_chat_unchanged(m: Map<i64, String>, chat: i64, t: String, other: i64)
    requires
        other != chat,
    ensures
        m.insert(chat, t).contains_key(other) == m.contains_key(other),
        m.contains_key(other) ==> m.insert(chat, t)[other] == m[other],
{
}

/// Taking a payload is at-most-once: a second take with the same identifier,
/// with no intervening store, yields the empty document and changes nothing.
pub proof fn lemma_take_at_most_once(m: Map<i64, Payload>, msg: i64)
    ensures
        spec_take(spec_take(m, msg).1, msg).0 == Payload::spec_empty(),
        spec_take(spec_take(m, msg).1, msg).1 == spec_take(m, msg).1,
{
}

} // verus!
