//! Regular expressions, compiled and run by the `regex` crate.
use vstd::prelude::*;

verus! {

/// The compiled regular expressions of the `regex` crate, carried through
/// unopened.
#[verifier::external_type_specification]
#[verifier::external_body]
pub struct ExRegex(regex::Regex);

/// Whether `part` occurs in `text` as a contiguous piece.
pub open spec fn occurs_in(part: Seq<char>, text: Seq<char>) -> bool {
    exists|k: int| 0 <= k && k + part.len() <= text.len() && #[trigger] text.subrange(k, k + part.len()) == part
}

/// Why `regex::Regex::new` refuses a pattern (its error, read as a
/// `PatternErrorView`), or `None` when it accepts the pattern.
pub uninterp spec fn regex_refusal(pattern: Seq<char>) -> Option<PatternErrorView>;

/// Whether `regex::Regex::new` accepts a pattern.
pub open spec fn regex_compiles(pattern: Seq<char>) -> bool {
    regex_refusal(pattern) is None
}

/// What `regex::Regex::captures` finds for a compiled pattern in a text:
/// `None` when the pattern does not match, else every group of the leftmost
/// match in order (group 0 is the whole match), each either the text it
/// matched or absent.
pub uninterp spec fn regex_captures(pattern: Seq<char>, text: Seq<char>) -> Option<
    Seq<Option<Seq<char>>>,
>;

/// Why a pattern was refused.
#[derive(Debug, PartialEq, Eq)]
pub enum PatternError {
    /// The pattern is not a valid regular expression; the text says why.
    Syntax(String),
    /// The compiled pattern would exceed the size limit given here in bytes.
    CompiledTooBig(usize),
    /// Some other reason the pattern was refused.
    Other,
}

/// Why a pattern was refused, with texts by their characters.
pub enum PatternErrorView {
    Syntax(Seq<char>),
    CompiledTooBig(usize),
    Other,
}

impl View for PatternError {
    type V = PatternErrorView;

    open spec fn view(&self) -> PatternErrorView {
        match self {
            PatternError::Syntax(s) => PatternErrorView::Syntax(s@),
            PatternError::CompiledTooBig(n) => PatternErrorView::CompiledTooBig(*n),
            PatternError::Other => PatternErrorView::Other,
        }
    }
}

/// A compiled pattern together with its source text.
pub struct CompiledPattern {
    source: String,
    regex: regex::Regex,
}

impl CompiledPattern {
    /// The source text this pattern was compiled from.
    pub closed spec fn source_text(&self) -> Seq<char> {
        self.source@
    }
}

/// Compiles a pattern with `regex::Regex::new`. The contract claims that it
/// succeeds exactly when the named `regex_refusal` of the pattern is `None`,
/// that the compiled pattern keeps its source text, and that a refused
/// pattern gives the error `regex_refusal` names (the crate's error moved
/// variant by variant into `PatternError`).
#[verifier::external_body]
pub(crate) fn compile(pattern: &str) -> (r: Result<CompiledPattern, PatternError>)
    ensures
        r is Ok <==> regex_refusal(pattern@) is None,
        r matches Ok(c) ==> c.source_text() == pattern@,
        r matches Err(e) ==> regex_refusal(pattern@) == Some(e@),
{
    match regex::Regex::new(pattern) {
        Ok(regex) => Ok(CompiledPattern { source: pattern.to_string(), regex }),
        Err(regex::Error::Syntax(s)) => Err(PatternError::Syntax(s)),
        Err(regex::Error::CompiledTooBig(n)) => Err(PatternError::CompiledTooBig(n)),
        Err(_) => Err(PatternError::Other),
    }
}

/// The groups as plain text: each present group by its characters.
pub open spec fn groups_view(groups: Seq<Option<String>>) -> Seq<Option<Seq<char>>> {
    groups.map_values(|g: Option<String>| match g {
        Some(s) => Some(s@),
        None => None,
    })
}

/// Runs `regex::Regex::captures` and copies out every group of the match.
/// The contract claims the result is the named `regex_captures` of the
/// pattern's source text and the text searched, and two facts the crate's
/// documentation gives: group 0 (the whole match) is always present, and
/// every present group is a piece of the text searched.
#[verifier::external_body]
pub(crate) fn captures(pattern: &CompiledPattern, text: &str) -> (r: Option<Vec<Option<String>>>)
    ensures
        r is Some <==> regex_captures(pattern.source_text(), text@) is Some,
        r matches Some(g) ==> groups_view(g@) == regex_captures(pattern.source_text(), text@)->0,
        r matches Some(g) ==> g@.len() >= 1 && g@[0] is Some,
        r matches Some(g) ==> forall|i: int|
            0 <= i < g@.len() && (#[trigger] g@[i]) is Some ==> occurs_in(g@[i]->0@, text@),
{
    let caps = pattern.regex.captures(text)?;
    let mut groups = Vec::new();
    for m in caps.iter() {
        groups.push(m.map(|x| x.as_str().to_string()));
    }
    Some(groups)
}

} // verus!
