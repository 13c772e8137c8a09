//! The continuation decision for an inbound message: does it carry on a
//! prior exchange, or start fresh? A pure store lookup — no backend call.

use vstd::prelude::*;

use crate::payload::Payload;
use crate::store::{spec_take, PayloadStore};

verus! {

/// The prior payload for a new exchange and the payload map afterwards.
/// A reply to a message with a stored payload consumes that entry; a
/// non-reply, or a reply to a message without one, starts from the empty
/// document and leaves the map as it is.
pub open spec fn spec_resolve(m: Map<i64, Payload>, reply_to: Option<i64>) -> (
    Payload,
    Map<i64, Payload>,
) {
    match reply_to {
        Some(id) => spec_take(m, id),
        None => (Payload::spec_empty(), m),
    }
}

/// Resolves an inbound message against the store: `reply_to` is the
/// identifier of the message it replies to, if any. Returns the prior
/// payload for the next backend request, consuming it from the store
/// (single-use).
pub fn resolve_continuation(store: &mut PayloadStore, reply_to: Option<i64>) -> (r: Payload)
    ensures
        r == spec_resolve(old(store)@, reply_to).0,
        final(store)@ == spec_resolve(old(store)@, reply_to).1,
{
    match reply_to {
        Some(id) => store.take_last_payload(id),
        None => Payload::empty(),
    }
}

/// Replying to a message whose payload was already consumed behaves exactly
/// like starting a fresh conversation: the empty prior payload, the store
/// untouched — never an error.
pub proof fn lemma_consumed_reply_is_fresh(m: Map<i64, Payload>, id: i64)
    requires
        !m.contains_key(id),
    ensures
        spec_resolve(m, Some(id)) == spec_resolve(m, None),
{
}

} // verus!
