//! Opaque identifiers. Each is a number that the caller derives, one for one,
//! from whatever the remote store uses to name the thing.

use vstd::prelude::*;

verus! {

/// Names a conversation.
#[derive(Clone, Copy, Debug, PartialEq, Eq, Structural, Hash)]
pub struct ConversationId {
    pub raw: u128,
}

/// Names a remote identity.
#[derive(Clone, Copy, Debug, PartialEq, Eq, Structural, Hash)]
pub struct ParticipantId {
    pub raw: u64,
}

/// Names a message.
#[derive(Clone, Copy, Debug, PartialEq, Eq, Structural, Hash)]
pub struct MessageId {
    pub raw: u128,
}

/// Whether two conversation contexts are the same one. `None` stands for
/// "no conversation selected" and equals only itself.
pub fn same_context(a: Option<ConversationId>, b: Option<ConversationId>) -> (same: bool)
    ensures
        same == (a == b),
{
    match (a, b) {
        (None, None) => true,
        (Some(x), Some(y)) => x.raw == y.raw,
        _ => false,
    }
}

/// Whether two optional message ids are the same.
pub fn same_reply(a: Option<MessageId>, b: Option<MessageId>) -> (same: bool)
    ensures
        same == (a == b),
{
    match (a, b) {
        (None, None) => true,
        (Some(x), Some(y)) => x.raw == y.raw,
        _ => false,
    }
}

} // verus!
