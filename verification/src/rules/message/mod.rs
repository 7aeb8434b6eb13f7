//! Rules on the text of a message.
pub mod command;
pub mod or;
pub mod regex;
pub mod text;

pub use command::CommandRule;
pub use or::{first_match, first_match_spec, OrRule, OrScan};
pub use regex::{RegexResult, RegexRule};
pub use text::TextRule;
