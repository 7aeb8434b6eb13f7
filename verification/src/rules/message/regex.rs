use vstd::prelude::*;

use crate::pattern::{captures, compile, groups_view, occurs_in, regex_captures, regex_compiles, regex_refusal, CompiledPattern, PatternError};
use crate::text::{lowercase, to_lowercase};

verus! {

/// The groups a pattern captured in a message, in order, leaving out the
/// groups that took no part in the match.
#[derive(Debug)]
pub struct RegexResult {
    pub matches: Vec<String>,
}

impl RegexResult {
    /// The captured texts.
    pub open spec fn texts(&self) -> Seq<Seq<char>> {
        self.matches@.map_values(|s: String| s@)
    }
}

/// The texts of the groups that are present, in order.
pub open spec fn present_groups(groups: Seq<Option<Seq<char>>>) -> Seq<Seq<char>>
    decreases groups.len(),
{
    if groups.len() == 0 {
        Seq::empty()
    } else {
        let rest = present_groups(groups.drop_last());
        match groups.last() {
            Some(s) => rest.push(s),
            None => rest,
        }
    }
}

/// Every text among the present groups is the text of some present group,
/// and when the first group is present the result is not empty.
pub proof fn lemma_present_groups(groups: Seq<Option<Seq<char>>>)
    ensures
        forall|j: int| 0 <= j < present_groups(groups).len() ==> exists|i: int|
            0 <= i < groups.len() && #[trigger] groups[i] == Some(#[trigger] present_groups(groups)[j]),
        groups.len() >= 1 && groups[0] is Some ==> present_groups(groups).len() >= 1,
    decreases groups.len(),
{
    if groups.len() > 0 {
        let init = groups.drop_last();
        lemma_present_groups(init);
        let p = present_groups(groups);
        let q = present_groups(init);
        assert forall|j: int| 0 <= j < p.len() implies exists|i: int|
            0 <= i < groups.len() && #[trigger] groups[i] == Some(#[trigger] p[j]) by {
            if j < q.len() {
                assert(p[j] == q[j]);
                let i = choose|i: int| 0 <= i < init.len() && #[trigger] init[i] == Some(#[trigger] q[j]);
                assert(groups[i] == init[i]);
            } else {
                assert(groups[groups.len() - 1] == Some(p[j]));
            }
        }
        if groups.len() >= 2 && groups[0] is Some {
            assert(init[0] == groups[0]);
        }
    }
}

/// The texts reported for a match are exactly its present groups, in
/// order: every group that took part, once each and nothing else (equal
/// texts are not merged). Adding a present group adds its text at the end;
/// adding an absent one changes nothing.
pub proof fn lemma_present_groups_exact(groups: Seq<Option<Seq<char>>>, s: Seq<char>)
    ensures
        present_groups(groups) == groups.filter_map(|g: Option<Seq<char>>| g),
        present_groups(groups.push(Some(s))) == present_groups(groups).push(s),
        present_groups(groups.push(None)) == present_groups(groups),
        present_groups(groups).len() <= groups.len(),
    decreases groups.len(),
{
    assert(groups.push(Some(s)).drop_last() == groups);
    assert(groups.push(None::<Seq<char>>).drop_last() == groups);
    if groups.len() > 0 {
        lemma_present_groups_exact(groups.drop_last(), s);
        let rest = groups.drop_last();
        match groups.last() {
            Some(t) => {
                assert(present_groups(groups) == present_groups(rest).push(t));
                assert(groups.filter_map(|g: Option<Seq<char>>| g) == rest.filter_map(|g: Option<Seq<char>>| g) + seq![t]);
                assert(present_groups(rest).push(t) =~= rest.filter_map(|g: Option<Seq<char>>| g) + seq![t]);
            },
            None => {
                assert(groups.filter_map(|g: Option<Seq<char>>| g) == rest.filter_map(|g: Option<Seq<char>>| g));
            },
        }
    } else {
        assert(groups.filter_map(|g: Option<Seq<char>>| g) == Seq::<Seq<char>>::empty());
    }
}

/// A match with `k` groups, all present, reports exactly those `k` texts,
/// in order.
pub proof fn lemma_all_present_groups_reported(groups: Seq<Option<Seq<char>>>)
    requires
        forall|i: int| 0 <= i < groups.len() ==> (#[trigger] groups[i]) is Some,
    ensures
        present_groups(groups).len() == groups.len(),
        forall|i: int| 0 <= i < groups.len() ==> Some(#[trigger] present_groups(groups)[i]) == groups[i],
    decreases groups.len(),
{
    if groups.len() > 0 {
        let rest = groups.drop_last();
        assert forall|i: int| 0 <= i < rest.len() implies (#[trigger] rest[i]) is Some by {
            assert(rest[i] == groups[i]);
        }
        lemma_all_present_groups_reported(rest);
        assert(groups[groups.len() - 1] is Some);
        let p = present_groups(groups);
        assert forall|i: int| 0 <= i < groups.len() implies Some(#[trigger] p[i]) == groups[i] by {
            if i < rest.len() {
                assert(rest[i] == groups[i]);
            }
        }
    }
}

/// What a pattern rule reports for a message: `None` when the pattern does
/// not match the lower-cased text, else the groups that took part.
pub open spec fn pattern_outcome(source: Seq<char>, message: Seq<char>) -> Option<Seq<Seq<char>>> {
    match regex_captures(source, lowercase(message)) {
        Some(groups) => Some(present_groups(groups)),
        None => None,
    }
}

/// Keeps the groups that are present, in order.
fn keep_present(groups: Vec<Option<String>>) -> (r: Vec<String>)
    ensures
        r@.map_values(|s: String| s@) == present_groups(crate::pattern::groups_view(groups@)),
{
    let ghost g = crate::pattern::groups_view(groups@);
    let mut out: Vec<String> = Vec::new();
    let n = groups.len();
    let mut i: usize = 0;
    while i < n
        invariant
            n == groups@.len(),
            g == crate::pattern::groups_view(groups@),
            i <= n,
            out@.map_values(|s: String| s@) == present_groups(g.take(i as int)),
        decreases n - i,
    {
        assert(g.take((i + 1) as int).drop_last() == g.take(i as int));
        match &groups[i] {
            Some(s) => {
                out.push(s.clone());
                assert(out@.map_values(|s: String| s@) == present_groups(g.take(i as int)).push(s@));
            },
            None => {},
        }
        i = i + 1;
    }
    assert(g.take(n as int) == g);
    out
}

/// Runs a compiled pattern on the lower-cased text of a message.
pub fn run_pattern(pattern: &CompiledPattern, message: &str) -> (r: Option<RegexResult>)
    ensures
        r is Some <==> pattern_outcome(pattern.source_text(), message@) is Some,
        r matches Some(res) ==> res.texts() == pattern_outcome(pattern.source_text(), message@)->0,
        r matches Some(res) ==> res.texts().len() >= 1,
        r matches Some(res) ==> forall|j: int|
            0 <= j < res.texts().len() ==> occurs_in(#[trigger] res.texts()[j], lowercase(message@)),
{
    let text = to_lowercase(message);
    match captures(pattern, text.as_str()) {
        Some(groups) => {
            let ghost g = groups_view(groups@);
            proof {
                lemma_present_groups(g);
                assert(g[0] is Some);
                assert forall|i: int| 0 <= i < g.len() && (#[trigger] g[i]) is Some implies occurs_in(g[i]->0, text@) by {
                    assert(groups@[i] is Some);
                }
            }
            let res = RegexResult { matches: keep_present(groups) };
            proof {
                let p = present_groups(g);
                assert forall|j: int| 0 <= j < p.len() implies occurs_in(#[trigger] p[j], lowercase(message@)) by {
                    let i = choose|i: int| 0 <= i < g.len() && #[trigger] g[i] == Some(#[trigger] p[j]);
                    assert(g[i] is Some);
                }
            }
            Some(res)
        },
        None => None,
    }
}

/// Matches a message whose lower-cased text a regular expression matches,
/// and reports the groups it captured.
pub struct RegexRule {
    pattern: CompiledPattern,
}

impl RegexRule {
    /// The source text of the pattern.
    pub closed spec fn source(&self) -> Seq<char> {
        self.pattern.source_text()
    }

    /// Compiles the pattern; fails exactly when the regular expression is
    /// refused, with the error the refusal gives.
    pub fn new(pattern: &str) -> (r: Result<Self, PatternError>)
        ensures
            r is Ok <==> regex_compiles(pattern@),
            r matches Ok(rule) ==> rule.source() == pattern@,
            r matches Err(e) ==> regex_refusal(pattern@) == Some(e@),
    {
        match compile(pattern) {
            Ok(p) => Ok(RegexRule { pattern: p }),
            Err(e) => Err(e),
        }
    }

    /// What the rule reports for a message with this text.
    pub fn matches_text(&self, message: &str) -> (r: Option<RegexResult>)
        ensures
            r is Some <==> pattern_outcome(self.source(), message@) is Some,
            r matches Some(res) ==> res.texts() == pattern_outcome(self.source(), message@)->0,
            r matches Some(res) ==> res.texts().len() >= 1,
            r matches Some(res) ==> forall|j: int|
                0 <= j < res.texts().len() ==> occurs_in(#[trigger] res.texts()[j], lowercase(message@)),
    {
        run_pattern(&self.pattern, message)
    }
}

} // verus!
