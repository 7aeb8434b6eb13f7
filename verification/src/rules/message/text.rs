use vstd::prelude::*;

use crate::text::{normalize, normalized, same_text};

verus! {

/// Matches a message whose whole text equals a given text; by default the
/// message is lower-cased before the comparison (the given text is not).
pub struct TextRule {
    text: String,
    lower: bool,
}

impl TextRule {
    /// The text a message must equal.
    pub closed spec fn expected(&self) -> Seq<char> {
        self.text@
    }

    /// Whether the message is lower-cased before the comparison.
    pub closed spec fn lowers(&self) -> bool {
        self.lower
    }

    /// A rule for the given text, lower-casing messages.
    pub fn new(text: &str) -> (r: Self)
        ensures
            r.expected() == text@,
            r.lowers(),
    {
        TextRule { text: text.to_owned(), lower: true }
    }

    /// The same rule, lower-casing messages or not as `value` says.
    pub fn lower(self, value: bool) -> (r: Self)
        ensures
            r.expected() == self.expected(),
            r.lowers() == value,
    {
        TextRule { text: self.text, lower: value }
    }

    /// Whether a message with this text matches.
    pub fn matches_text(&self, message: &str) -> (r: bool)
        ensures
            r == (normalized(message@, self.lowers()) == self.expected()),
    {
        let message_text = normalize(message, self.lower);
        same_text(message_text.as_str(), self.text.as_str())
    }
}

} // verus!
