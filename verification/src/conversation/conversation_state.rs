use vstd::prelude::*;

verus! {

/// What is known of an open conversation: the last update it received.
#[derive(Debug, Clone)]
pub struct ConversationState<U> {
    pub last_update: Option<U>,
}

impl<U> ConversationState<U> {
    /// A conversation that has received nothing yet.
    pub fn new() -> (r: Self)
        ensures
            r.last_update is None,
    {
        ConversationState { last_update: None }
    }

    /// Records the update the conversation just received.
    pub fn update_last_update(&mut self, update: U)
        ensures
            final(self).last_update == Some(update),
    {
        self.last_update = Some(update);
    }
}

impl<U> Default for ConversationState<U> {
    fn default() -> (r: Self)
        ensures
            r.last_update is None,
    {
        Self::new()
    }
}

} // verus!
