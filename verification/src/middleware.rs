//! Middlewares: code that runs before and after the handlers of every update.
use vstd::prelude::*;
use std::sync::Arc;

use crate::shared::share;

verus! {

/// The middlewares of a dispatcher, shared between the tasks that handle
/// updates. Before the handlers run, each middleware is asked in order
/// whether to go on; after they ran, each is told in order.
pub struct MiddlewareContainer<M> {
    middlewares: Arc<Vec<M>>,
}

impl<M> MiddlewareContainer<M> {
    /// The middlewares, in the order they run.
    pub closed spec fn members(&self) -> Seq<M> {
        self.middlewares@
    }

    /// A container of the given middlewares, kept in order.
    pub fn new(middlewares: Vec<M>) -> (r: Self)
        ensures
            r.members() == middlewares@,
    {
        MiddlewareContainer { middlewares: Arc::new(middlewares) }
    }

    /// The middlewares, in the order they run.
    pub fn middlewares(&self) -> (r: &Vec<M>)
        ensures
            r@ == self.members(),
    {
        &*self.middlewares
    }

    /// How many middlewares there are.
    pub fn len(&self) -> (r: usize)
        ensures
            r == self.members().len(),
    {
        self.middlewares.len()
    }

    /// Another handle on the same middlewares.
    pub fn share(&self) -> (r: Self)
        ensures
            r.members() == self.members(),
    {
        MiddlewareContainer { middlewares: share(&self.middlewares) }
    }
}

impl<M> Clone for MiddlewareContainer<M> {
    fn clone(&self) -> (r: Self)
        ensures
            r.members() == self.members(),
    {
        self.share()
    }
}

impl<M> Default for MiddlewareContainer<M> {
    fn default() -> (r: Self)
        ensures
            r.members() == Seq::<M>::empty(),
    {
        Self::new(Vec::new())
    }
}

} // verus!
