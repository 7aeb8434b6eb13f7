use vstd::prelude::*;

verus! {

/// Matches a message sent by the peer with the given id.
pub struct FromSenderRule {
    id: i64,
}

impl FromSenderRule {
    /// The id of the sender a message must come from.
    pub closed spec fn sender_id(&self) -> i64 {
        self.id
    }

    /// A rule for the sender with this id.
    pub fn new(id: i64) -> (r: Self)
        ensures
            r.sender_id() == id,
    {
        FromSenderRule { id }
    }

    /// Whether a message with this sender matches; a message without a
    /// known sender never does.
    pub fn matches_sender(&self, sender: Option<i64>) -> (r: bool)
        ensures
            r == (sender == Some(self.sender_id())),
    {
        match sender {
            Some(id) => id == self.id,
            None => false,
        }
    }
}

} // verus!
