use vstd::prelude::*;

use crate::text::{join, normalize, normalized, starts_with};

verus! {

/// Matches a message that starts with `/` followed by a command name; by
/// default the message is lower-cased first (the name is not).
pub struct CommandRule {
    command: String,
    lower: bool,
}

impl CommandRule {
    /// The command name, without the slash.
    pub closed spec fn command_name(&self) -> Seq<char> {
        self.command@
    }

    /// Whether the message is lower-cased before the comparison.
    pub closed spec fn lowers(&self) -> bool {
        self.lower
    }

    /// A rule for the given command name, lower-casing messages.
    pub fn new(command: &str) -> (r: Self)
        ensures
            r.command_name() == command@,
            r.lowers(),
    {
        CommandRule { command: command.to_owned(), lower: true }
    }

    /// Sets whether messages are lower-cased before the comparison.
    pub fn lower(&mut self, value: bool)
        ensures
            final(self).command_name() == old(self).command_name(),
            final(self).lowers() == value,
    {
        self.lower = value;
    }

    /// Whether a message with this text matches: its (possibly lower-cased)
    /// text starts with `/` and the command name.
    pub fn matches_text(&self, message: &str) -> (r: bool)
        ensures
            r == (seq!['/'] + self.command_name()).is_prefix_of(
                normalized(message@, self.lowers()),
            ),
    {
        let message_text = normalize(message, self.lower);
        let slash = "/";
        proof {
            reveal_strlit("/");
        }
        let full = join(slash, self.command.as_str());
        assert(full@ == seq!['/'] + self.command@);
        starts_with(message_text.as_str(), full.as_str())
    }
}

} // verus!
