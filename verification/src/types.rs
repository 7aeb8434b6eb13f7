//! What a rule reports about an update.
use vstd::prelude::*;

verus! {

/// The result of running one rule on an update.
///
/// A rule either answers yes or no (`Flag`), reports that it has nothing to
/// say (`Unit`, the unit value), or hands back some data (`Value`), such as
/// the groups a pattern captured.
#[derive(Debug)]
pub enum RuleOutcome<T> {
    Flag(bool),
    Unit,
    Value(T),
}

impl<T> RuleOutcome<T> {
    /// A plain "no".
    pub open spec fn is_false_flag(self) -> bool {
        self matches RuleOutcome::Flag(false)
    }

    /// An outcome that makes a rule check fail: a "no" or the unit value.
    pub open spec fn is_failure(self) -> bool {
        self matches RuleOutcome::Flag(false) || self is Unit
    }

    /// Whether this outcome is a plain "no".
    pub fn rejects(&self) -> (r: bool)
        ensures
            r == self.is_false_flag(),
    {
        match self {
            RuleOutcome::Flag(b) => !*b,
            _ => false,
        }
    }

    /// Whether this outcome makes a rule check fail.
    pub fn fails(&self) -> (r: bool)
        ensures
            r == self.is_failure(),
    {
        match self {
            RuleOutcome::Flag(b) => !*b,
            RuleOutcome::Unit => true,
            RuleOutcome::Value(_) => false,
        }
    }
}

} // verus!
