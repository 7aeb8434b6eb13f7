use vstd::prelude::*;

use super::{NewMessageHandler, RuleChecker};

verus! {

/// Collects the message handlers of a new-message handler.
pub struct NewMessageHandlerBuilder<H> {
    handlers: Vec<H>,
    rule_checker: RuleChecker,
}

impl<H> NewMessageHandlerBuilder<H> {
    /// The message handlers collected so far, in order.
    pub closed spec fn registered(&self) -> Seq<H> {
        self.handlers@
    }

    /// Whether the built handler checks rules strictly.
    pub closed spec fn checks_strictly(&self) -> bool {
        self.rule_checker.is_strict()
    }

    /// A builder with no message handlers and a strict rule checker.
    pub fn new() -> (r: Self)
        ensures
            r.registered() == Seq::<H>::empty(),
            r.checks_strictly(),
    {
        NewMessageHandlerBuilder { handlers: Vec::new(), rule_checker: RuleChecker::new().strict(true) }
    }

    /// Adds a message handler, tried after the ones added before.
    pub fn with_handler(self, handler: H) -> (r: Self)
        ensures
            r.registered() == self.registered().push(handler),
            r.checks_strictly() == self.checks_strictly(),
    {
        let mut handlers = self.handlers;
        handlers.push(handler);
        NewMessageHandlerBuilder { handlers, rule_checker: self.rule_checker }
    }

    /// The new-message handler with the collected message handlers.
    pub fn build(self) -> (r: NewMessageHandler<H>)
        ensures
            r.registered() == self.registered(),
            r.checks_strictly() == self.checks_strictly(),
    {
        NewMessageHandler::from_parts(self.handlers, self.rule_checker)
    }
}

impl<H> Default for NewMessageHandlerBuilder<H> {
    fn default() -> (r: Self)
        ensures
            r.registered() == Seq::<H>::empty(),
            r.checks_strictly(),
    {
        Self::new()
    }
}

} // verus!
