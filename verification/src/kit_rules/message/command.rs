use vstd::prelude::*;

use crate::text::{join, normalize, normalized, same_text, starts_with};

verus! {

/// Whether a message invokes a command written out in full (prefix and
/// name): it is exactly that, or that followed by `@` (a bot mention).
pub open spec fn invokes(full: Seq<char>, message: Seq<char>) -> bool {
    message == full || (full + seq!['@']).is_prefix_of(message)
}

/// Whether a message invokes the command under any of the prefixes.
pub open spec fn invokes_any(prefixes: Seq<Seq<char>>, command: Seq<char>, message: Seq<char>) -> bool {
    exists|i: int| 0 <= i < prefixes.len() && invokes(#[trigger] prefixes[i] + command, message)
}

/// Matches a message that is a command: one of the prefixes (by default
/// only `/`), the command name, and nothing more than an optional `@` and
/// bot name. By default the message is lower-cased first.
pub struct CommandRule {
    command: String,
    lower: bool,
    prefixes: Vec<String>,
}

impl CommandRule {
    /// The command name, without prefix.
    pub closed spec fn command_name(&self) -> Seq<char> {
        self.command@
    }

    /// Whether the message is lower-cased before the comparison.
    pub closed spec fn lowers(&self) -> bool {
        self.lower
    }

    /// The prefixes a command may start with, in order.
    pub closed spec fn prefix_texts(&self) -> Seq<Seq<char>> {
        self.prefixes@.map_values(|p: String| p@)
    }

    /// A rule for the given command name, with the prefix `/`, lower-casing messages.
    pub fn new(command: &str) -> (r: Self)
        ensures
            r.command_name() == command@,
            r.lowers(),
            r.prefix_texts() == seq![seq!['/']],
    {
        let slash = "/";
        proof {
            reveal_strlit("/");
        }
        let mut prefixes: Vec<String> = Vec::new();
        prefixes.push(slash.to_owned());
        let r = CommandRule { command: command.to_owned(), lower: true, prefixes };
        assert(slash@ =~= seq!['/']);
        assert(r.prefix_texts()[0] == seq!['/']);
        assert(r.prefix_texts() =~= seq![seq!['/']]);
        r
    }

    /// The same rule, lower-casing messages or not as `value` says.
    pub fn lower(self, value: bool) -> (r: Self)
        ensures
            r.command_name() == self.command_name(),
            r.lowers() == value,
            r.prefix_texts() == self.prefix_texts(),
    {
        CommandRule { command: self.command, lower: value, prefixes: self.prefixes }
    }

    /// The same rule with the given prefixes in place of the old ones.
    pub fn prefixes(self, prefixes: Vec<String>) -> (r: Self)
        ensures
            r.command_name() == self.command_name(),
            r.lowers() == self.lowers(),
            r.prefix_texts() == prefixes@.map_values(|p: String| p@),
    {
        CommandRule { command: self.command, lower: self.lower, prefixes }
    }

    /// The same rule with one more prefix, tried last.
    pub fn add_prefix(self, prefix: &str) -> (r: Self)
        ensures
            r.command_name() == self.command_name(),
            r.lowers() == self.lowers(),
            r.prefix_texts() == self.prefix_texts().push(prefix@),
    {
        let mut prefixes = self.prefixes;
        let ghost before = prefixes@;
        prefixes.push(prefix.to_owned());
        let r = CommandRule { command: self.command, lower: self.lower, prefixes };
        assert(r.prefix_texts() =~= before.map_values(|p: String| p@).push(prefix@));
        r
    }

    /// Whether a message with this text invokes the command.
    pub fn matches_text(&self, message: &str) -> (r: bool)
        ensures
            r == invokes_any(self.prefix_texts(), self.command_name(), normalized(message@, self.lowers())),
    {
        let text = normalize(message, self.lower);
        let at = "@";
        proof {
            reveal_strlit("@");
        }
        let ghost msg = text@;
        let ghost ps = self.prefix_texts();
        let n = self.prefixes.len();
        let mut i: usize = 0;
        while i < n
            invariant
                n == self.prefixes@.len(),
                ps == self.prefix_texts(),
                msg == text@,
                msg == normalized(message@, self.lowers()),
                at@ == seq!['@'],
                i <= n,
                forall|j: int| 0 <= j < i ==> !invokes(#[trigger] ps[j] + self.command_name(), msg),
            decreases n - i,
        {
            let full = join(self.prefixes[i].as_str(), self.command.as_str());
            assert(ps[i as int] == self.prefixes@[i as int]@);
            let mentioned = join(full.as_str(), at);
            if same_text(text.as_str(), full.as_str()) || starts_with(text.as_str(), mentioned.as_str()) {
                assert(invokes(ps[i as int] + self.command_name(), msg));
                assert(msg == normalized(message@, self.lowers()));
                assert(invokes_any(ps, self.command_name(), msg));
                return true;
            }
            i = i + 1;
        }
        false
    }
}

/// Adding a prefix never stops a message from invoking a command: every
/// message that invokes it under the old prefixes still does.
pub proof fn lemma_more_prefixes_match_more(
    prefixes: Seq<Seq<char>>,
    extra: Seq<char>,
    command: Seq<char>,
    message: Seq<char>,
)
    requires
        invokes_any(prefixes, command, message),
    ensures
        invokes_any(prefixes.push(extra), command, message),
{
    let i = choose|i: int| 0 <= i < prefixes.len() && invokes(#[trigger] prefixes[i] + command, message);
    assert(prefixes.push(extra)[i] == prefixes[i]);
}

/// A message that is exactly a prefix and the command name invokes the
/// command, and so does that text followed by `@` and a bot name.
pub proof fn lemma_exact_and_mentioned_commands_match(
    prefixes: Seq<Seq<char>>,
    i: int,
    command: Seq<char>,
    bot: Seq<char>,
)
    requires
        0 <= i < prefixes.len(),
    ensures
        invokes_any(prefixes, command, prefixes[i] + command),
        invokes_any(prefixes, command, prefixes[i] + command + seq!['@'] + bot),
{
    let full = prefixes[i] + command;
    assert(invokes(full, full));
    let m = full + seq!['@'] + bot;
    assert((full + seq!['@']) =~= m.subrange(0, (full + seq!['@']).len() as int));
    assert(invokes(full, m));
}

/// With the default prefix, every message that invokes a command also
/// starts with `/` and the command name, so the plain command rule of
/// `rules::message` accepts it too (that rule also accepts longer words).
pub proof fn lemma_default_prefix_implies_plain_command(command: Seq<char>, message: Seq<char>)
    requires
        invokes_any(seq![seq!['/']], command, message),
    ensures
        (seq!['/'] + command).is_prefix_of(message),
{
    let ps = seq![seq!['/']];
    let i = choose|i: int| 0 <= i < ps.len() && invokes(#[trigger] ps[i] + command, message);
    assert(i == 0);
    let full = seq!['/'] + command;
    assert(ps[0] + command == full);
    if message != full {
        assert((full + seq!['@']).is_prefix_of(message));
        assert forall|k: int| 0 <= k < full.len() implies message[k] == full[k] by {
            assert(message.subrange(0, (full + seq!['@']).len() as int)[k] == (full + seq!['@'])[k]);
        }
        assert(full =~= message.subrange(0, full.len() as int));
    }
}

/// A message invokes a command written out in full exactly when it is
/// that text, or that text followed directly by `@` (and anything after):
/// the character right after the command must be `@`, so a longer word
/// such as `/startgame@bot` does not invoke `/start`.
pub proof fn lemma_invokes_exact(full: Seq<char>, message: Seq<char>)
    ensures
        invokes(full, message) <==> (message == full || (full.is_prefix_of(message) && message.len()
            > full.len() && message[full.len() as int] == '@')),
        invokes(full, message) && message != full ==> message.len() > full.len() && message[full.len() as int]
            == '@',
        invokes(full, message) ==> full.is_prefix_of(message),
{
    let at = full + seq!['@'];
    if at.is_prefix_of(message) {
        assert forall|k: int| 0 <= k < full.len() implies message[k] == full[k] by {
            assert(message.subrange(0, at.len() as int)[k] == at[k]);
        }
        assert(full =~= message.subrange(0, full.len() as int));
        assert(message.subrange(0, at.len() as int)[full.len() as int] == at[full.len() as int]);
    }
    if full.is_prefix_of(message) && message.len() > full.len() && message[full.len() as int] == '@' {
        assert forall|k: int| 0 <= k < at.len() implies message[k] == at[k] by {
            if k < full.len() {
                assert(message.subrange(0, full.len() as int)[k] == full[k]);
            }
        }
        assert(at =~= message.subrange(0, at.len() as int));
    }
    if message == full {
        assert(full =~= message.subrange(0, full.len() as int));
    }
}

/// A rule with prefixes accepts a message exactly when, for some prefix,
/// the message is that prefix and the command name, alone or followed
/// directly by `@`.
pub proof fn lemma_invokes_any_exact(prefixes: Seq<Seq<char>>, command: Seq<char>, message: Seq<char>)
    ensures
        invokes_any(prefixes, command, message) <==> exists|i: int|
            0 <= i < prefixes.len() && {
                let full = #[trigger] prefixes[i] + command;
                message == full || (full.is_prefix_of(message) && message.len() > full.len()
                    && message[full.len() as int] == '@')
            },
{
    assert forall|i: int| 0 <= i < prefixes.len() implies invokes(#[trigger] prefixes[i] + command, message) <==> {
        let full = prefixes[i] + command;
        message == full || (full.is_prefix_of(message) && message.len() > full.len() && message[full.len() as int] == '@')
    } by {
        lemma_invokes_exact(prefixes[i] + command, message);
    }
}

} // verus!
