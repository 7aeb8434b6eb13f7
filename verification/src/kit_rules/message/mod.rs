//! Ready-made rules on messages.
pub mod command;
pub mod from_sender;
pub mod regex;

pub use command::CommandRule;
pub use from_sender::FromSenderRule;
pub use regex::RegexRule;
pub use crate::rules::message::RegexResult;
