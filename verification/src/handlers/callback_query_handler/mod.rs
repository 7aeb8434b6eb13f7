//! The handler of callback queries: it hands a query to every callback
//! handler for which at least one rule did not answer "no".
pub mod builder;
pub mod payload;

use vstd::prelude::*;

pub use builder::CallbackQueryHandlerBuilder;
pub use payload::{check_rules, kept_outcomes, lemma_kept_are_outcomes, lemma_payload_empty_iff_all_reject};

verus! {

/// Hands each callback query to every registered callback handler whose
/// payload (see `check_rules`) is not empty.
pub struct CallbackQueryHandler<H> {
    handlers: Vec<H>,
}

impl<H> CallbackQueryHandler<H> {
    /// The registered callback handlers, in order.
    pub closed spec fn registered(&self) -> Seq<H> {
        self.handlers@
    }

    /// A builder with no callback handlers.
    pub fn builder() -> (r: CallbackQueryHandlerBuilder<H>)
        ensures
            r.registered() == Seq::<H>::empty(),
    {
        CallbackQueryHandlerBuilder::new()
    }

    pub(crate) fn from_parts(handlers: Vec<H>) -> (r: Self)
        ensures
            r.registered() == handlers@,
    {
        CallbackQueryHandler { handlers }
    }

    /// The registered callback handlers, in the order they are tried.
    pub fn handlers(&self) -> (r: &Vec<H>)
        ensures
            r@ == self.registered(),
    {
        &self.handlers
    }
}

} // verus!
