use vstd::prelude::*;

use super::CallbackQueryHandler;

verus! {

/// Collects the callback handlers of a callback-query handler.
pub struct CallbackQueryHandlerBuilder<H> {
    handlers: Vec<H>,
}

impl<H> CallbackQueryHandlerBuilder<H> {
    /// The callback handlers collected so far, in order.
    pub closed spec fn registered(&self) -> Seq<H> {
        self.handlers@
    }

    /// A builder with no callback handlers.
    pub fn new() -> (r: Self)
        ensures
            r.registered() == Seq::<H>::empty(),
    {
        CallbackQueryHandlerBuilder { handlers: Vec::new() }
    }

    /// Adds a callback handler, tried after the ones added before.
    pub fn with_handler(self, handler: H) -> (r: Self)
        ensures
            r.registered() == self.registered().push(handler),
    {
        let mut handlers = self.handlers;
        handlers.push(handler);
        CallbackQueryHandlerBuilder { handlers }
    }

    /// The callback-query handler with the collected callback handlers.
    pub fn build(self) -> (r: CallbackQueryHandler<H>)
        ensures
            r.registered() == self.registered(),
    {
        CallbackQueryHandler::from_parts(self.handlers)
    }
}

impl<H> Default for CallbackQueryHandlerBuilder<H> {
    fn default() -> (r: Self)
        ensures
            r.registered() == Seq::<H>::empty(),
    {
        Self::new()
    }
}

} // verus!
