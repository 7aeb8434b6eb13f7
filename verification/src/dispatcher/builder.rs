use vstd::prelude::*;

use super::EventDispatcher;
use crate::builder::BuildError;

verus! {

/// Collects the event handlers and middlewares of a dispatcher.
pub struct EventDispatcherBuilder<H, M> {
    handlers: Vec<H>,
    middlewares: Vec<M>,
}

impl<H, M> EventDispatcherBuilder<H, M> {
    /// The event handlers collected so far, in order.
    pub closed spec fn handler_list(&self) -> Seq<H> {
        self.handlers@
    }

    /// The middlewares collected so far, in order.
    pub closed spec fn middleware_list(&self) -> Seq<M> {
        self.middlewares@
    }

    /// A builder with no handlers and no middlewares.
    pub fn new() -> (r: Self)
        ensures
            r.handler_list() == Seq::<H>::empty(),
            r.middleware_list() == Seq::<M>::empty(),
    {
        EventDispatcherBuilder { handlers: Vec::new(), middlewares: Vec::new() }
    }

    /// Adds an event handler after the ones added before.
    pub fn with_handler(self, handler: H) -> (r: Self)
        ensures
            r.handler_list() == self.handler_list().push(handler),
            r.middleware_list() == self.middleware_list(),
    {
        let mut handlers = self.handlers;
        handlers.push(handler);
        EventDispatcherBuilder { handlers, middlewares: self.middlewares }
    }

    /// Adds a middleware after the ones added before.
    pub fn with_middleware(self, middleware: M) -> (r: Self)
        ensures
            r.handler_list() == self.handler_list(),
            r.middleware_list() == self.middleware_list().push(middleware),
    {
        let mut middlewares = self.middlewares;
        middlewares.push(middleware);
        EventDispatcherBuilder { handlers: self.handlers, middlewares }
    }

    /// Adds several event handlers, in order, after the ones added before.
    pub fn with_handlers(self, handlers: Vec<H>) -> (r: Self)
        ensures
            r.handler_list() == self.handler_list() + handlers@,
            r.middleware_list() == self.middleware_list(),
    {
        let mut all = self.handlers;
        let mut more = handlers;
        all.append(&mut more);
        EventDispatcherBuilder { handlers: all, middlewares: self.middlewares }
    }

    /// Adds several middlewares, in order, after the ones added before.
    pub fn with_middlewares(self, middlewares: Vec<M>) -> (r: Self)
        ensures
            r.handler_list() == self.handler_list(),
            r.middleware_list() == self.middleware_list() + middlewares@,
    {
        let mut all = self.middlewares;
        let mut more = middlewares;
        all.append(&mut more);
        EventDispatcherBuilder { handlers: self.handlers, middlewares: all }
    }

    /// The dispatcher with the collected handlers and middlewares; building
    /// it always succeeds.
    pub fn build(self) -> (r: Result<EventDispatcher<H, M>, BuildError>)
        ensures
            r matches Ok(d) && d.handler_list() == self.handler_list() && d.middleware_list()
                == self.middleware_list(),
    {
        Ok(EventDispatcher::with_parts(self.handlers, self.middlewares))
    }
}

impl<H, M> Default for EventDispatcherBuilder<H, M> {
    fn default() -> (r: Self)
        ensures
            r.handler_list() == Seq::<H>::empty(),
            r.middleware_list() == Seq::<M>::empty(),
    {
        Self::new()
    }
}

} // verus!
