//! Conversations: a handler that waits in a chat for the next update.
pub mod conversation_state;

use vstd::prelude::*;

pub use conversation_state::ConversationState;

verus! {

/// Why waiting for a response in a conversation failed.
#[derive(Debug, Clone, Copy, PartialEq, Eq)]
pub enum ConversationError {
    /// The channel that delivers the chat's updates was closed.
    ChannelClosed,
    /// No update came within the conversation's time limit.
    TimedOut,
}

impl ConversationError {
    /// The message that describes the error.
    pub open spec fn message_spec(self) -> Seq<char> {
        match self {
            ConversationError::ChannelClosed => "Conversation channel closed"@,
            ConversationError::TimedOut => "Timeout waiting for response"@,
        }
    }

    /// The message that describes the error.
    pub fn message(&self) -> (r: &'static str)
        ensures
            r@ == self.message_spec(),
    {
        match self {
            ConversationError::ChannelClosed => "Conversation channel closed",
            ConversationError::TimedOut => "Timeout waiting for response",
        }
    }
}

/// How waiting for the next update of a conversation ended.
#[derive(Debug)]
pub enum Wait<U> {
    /// An update arrived.
    Received(U),
    /// The channel was closed before an update arrived.
    Closed,
    /// The time limit passed.
    Elapsed,
}

/// The response a conversation gives back for how the wait ended.
pub fn response<U>(wait: Wait<U>) -> (r: Result<U, ConversationError>)
    ensures
        wait matches Wait::Received(u) ==> r == Ok::<U, ConversationError>(u),
        wait is Closed ==> r == Err::<U, ConversationError>(ConversationError::ChannelClosed),
        wait is Elapsed ==> r == Err::<U, ConversationError>(ConversationError::TimedOut),
{
    match wait {
        Wait::Received(u) => Ok(u),
        Wait::Closed => Err(ConversationError::ChannelClosed),
        Wait::Elapsed => Err(ConversationError::TimedOut),
    }
}

/// How long a conversation waits for a response unless told otherwise, in seconds.
pub const DEFAULT_TIMEOUT_SECS: u64 = 60;

} // verus!
