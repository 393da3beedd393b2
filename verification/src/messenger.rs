//! Identifiers for chat-platform entities and the authorization capability.

use vstd::prelude::*;

verus! {

/// Identifier of a chat (a conversation) on a messaging platform.
pub struct ChatId(pub String);

impl ChatId {
    pub fn new(id: String) -> (r: Self)
        ensures
            r.0@ == id@,
    {
        ChatId(id)
    }
}

/// Identifier of a single message on a messaging platform.
pub struct MessageId(pub String);

impl MessageId {
    pub fn new(id: String) -> (r: Self)
        ensures
            r.0@ == id@,
    {
        MessageId(id)
    }
}

/// Opaque numeric identifier of a chat-platform account, compared by value.
#[derive(Debug, Clone, Copy, PartialEq, Eq, Hash, Structural)]
pub struct UserId(pub u64);

impl UserId {
    pub fn new(id: u64) -> (r: Self)
        ensures
            r.0 == id,
    {
        UserId(id)
    }
}

/// Decides whether a user may issue commands. Implementations are immutable
/// after construction, so the decision for a given user never changes.
pub trait AuthFilter {
    /// The set of permitted users, as a predicate.
    spec fn spec_allowed(&self, user_id: UserId) -> bool;

    /// Returns whether `user_id` is permitted to issue commands.
    fn is_allowed(&self, user_id: UserId) -> (r: bool)
        ensures
            r == self.spec_allowed(user_id),
    ;
}

} // verus!
