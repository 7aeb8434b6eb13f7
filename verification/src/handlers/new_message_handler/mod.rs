//! The handler of new messages: it hands a message to every message
//! handler whose rules all pass.
pub mod builder;
pub mod rule_checker;

use vstd::prelude::*;

pub use builder::NewMessageHandlerBuilder;
pub use rule_checker::{RuleCheckResult, RuleChecker};

verus! {

/// Hands each new message to every registered message handler whose rules
/// all pass, checking the rules with its rule checker.
pub struct NewMessageHandler<H> {
    handlers: Vec<H>,
    rule_checker: RuleChecker,
}

impl<H> NewMessageHandler<H> {
    /// The registered message handlers, in order.
    pub closed spec fn registered(&self) -> Seq<H> {
        self.handlers@
    }

    /// Whether the rules are checked strictly.
    pub closed spec fn checks_strictly(&self) -> bool {
        self.rule_checker.is_strict()
    }

    /// A builder with no message handlers and a strict rule checker.
    pub fn builder() -> (r: NewMessageHandlerBuilder<H>)
        ensures
            r.registered() == Seq::<H>::empty(),
            r.checks_strictly(),
    {
        NewMessageHandlerBuilder::new()
    }

    pub(crate) fn from_parts(handlers: Vec<H>, rule_checker: RuleChecker) -> (r: Self)
        ensures
            r.registered() == handlers@,
            r.checks_strictly() == rule_checker.is_strict(),
    {
        NewMessageHandler { handlers, rule_checker }
    }

    /// The registered message handlers, in the order they are tried.
    pub fn handlers(&self) -> (r: &Vec<H>)
        ensures
            r@ == self.registered(),
    {
        &self.handlers
    }

    /// The rule checker used for every message handler.
    pub fn rule_checker(&self) -> (r: &RuleChecker)
        ensures
            r.is_strict() == self.checks_strictly(),
    {
        &self.rule_checker
    }
}

} // verus!
