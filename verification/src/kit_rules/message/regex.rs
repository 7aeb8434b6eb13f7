//! The pattern rule of this set is the one of `rules::message`.
pub use crate::rules::message::RegexRule;
