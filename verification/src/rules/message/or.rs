use vstd::prelude::*;

use crate::types::RuleOutcome;

verus! {

/// Combines rules: the first of them that does not answer "no" decides.
pub struct OrRule<R> {
    rules: Vec<R>,
}

impl<R> OrRule<R> {
    /// The combined rules, in the order they are tried.
    pub closed spec fn members(&self) -> Seq<R> {
        self.rules@
    }

    /// A combination of no rules, which answers "no" to everything.
    pub fn new() -> (r: Self)
        ensures
            r.members() == Seq::<R>::empty(),
    {
        OrRule { rules: Vec::new() }
    }

    /// The same combination with one more rule, tried last.
    pub fn add_rule(self, rule: R) -> (r: Self)
        ensures
            r.members() == self.members().push(rule),
    {
        let mut rules = self.rules;
        rules.push(rule);
        OrRule { rules }
    }

    /// The combined rules, in the order they are tried.
    pub fn rules(&self) -> (r: &Vec<R>)
        ensures
            r@ == self.members(),
    {
        &self.rules
    }
}

impl<R> Default for OrRule<R> {
    fn default() -> (r: Self)
        ensures
            r.members() == Seq::<R>::empty(),
    {
        Self::new()
    }
}

/// The answer of a combination built one rule at a time, so that the
/// rules after the deciding one are never run: each outcome is handed to
/// `observe`, which gives the answer as soon as an outcome decides it.
pub struct OrScan<T> {
    refused: Ghost<Seq<RuleOutcome<T>>>,
}

impl<T> OrScan<T> {
    /// The outcomes observed so far, every one of them a plain "no".
    pub closed spec fn refused(&self) -> Seq<RuleOutcome<T>> {
        self.refused@
    }

    /// Every outcome observed so far was a plain "no".
    pub open spec fn wf(&self) -> bool {
        forall|j: int| 0 <= j < self.refused().len() ==> (#[trigger] self.refused()[j]).is_false_flag()
    }

    /// A scan that has seen no outcome.
    pub fn new() -> (r: Self)
        ensures
            r.wf(),
            r.refused() == Seq::<RuleOutcome<T>>::empty(),
    {
        OrScan { refused: Ghost(Seq::empty()) }
    }

    /// Takes the outcome of the next rule: it is the answer of the
    /// combination unless it is a plain "no", in which case the scan goes on.
    pub fn observe(&mut self, outcome: RuleOutcome<T>) -> (r: Option<RuleOutcome<T>>)
        requires
            old(self).wf(),
        ensures
            final(self).wf(),
            outcome.is_false_flag() ==> r is None && final(self).refused() == old(self).refused().push(
                outcome,
            ),
            !outcome.is_false_flag() ==> r == Some(outcome) && outcome == first_match_spec(
                old(self).refused().push(outcome),
            ),
    {
        let ghost before = self.refused@;
        proof {
            lemma_first_match_rejects_iff_all_reject(before);
            lemma_first_match_push(before, outcome);
        }
        if outcome.rejects() {
            let ghost after = before.push(outcome);
            proof {
                assert forall|j: int| 0 <= j < after.len() implies (#[trigger] after[j]).is_false_flag() by {
                    if j < before.len() {
                        assert(after[j] == before[j]);
                    }
                }
            }
            self.refused = Ghost(after);
            None
        } else {
            Some(outcome)
        }
    }

    /// The answer when every rule was observed without one deciding: "no".
    pub fn finish(&self) -> (r: RuleOutcome<T>)
        requires
            self.wf(),
        ensures
            r == first_match_spec(self.refused()),
            r == RuleOutcome::<T>::Flag(false),
    {
        proof {
            lemma_first_match_rejects_iff_all_reject(self.refused());
            lemma_first_match_is_an_outcome(self.refused());
            if first_match_spec(self.refused()) != RuleOutcome::<T>::Flag(false) {
                let j = choose|j: int|
                    0 <= j < self.refused().len() && first_match_spec(self.refused()) == #[trigger] self.refused()[j];
                assert(self.refused()[j].is_false_flag());
            }
        }
        RuleOutcome::Flag(false)
    }
}

/// The answer of a combination from the `i`-th outcome on: the first outcome
/// that is not a plain "no", or "no" when there is none.
pub open spec fn first_match_from<T>(outcomes: Seq<RuleOutcome<T>>, i: int) -> RuleOutcome<T>
    decreases outcomes.len() - i,
{
    if i < 0 || i >= outcomes.len() {
        RuleOutcome::Flag(false)
    } else if !outcomes[i].is_false_flag() {
        outcomes[i]
    } else {
        first_match_from(outcomes, i + 1)
    }
}

/// The answer of a combination whose rules gave these outcomes, in order.
pub open spec fn first_match_spec<T>(outcomes: Seq<RuleOutcome<T>>) -> RuleOutcome<T> {
    first_match_from(outcomes, 0)
}

/// The answer of a combination whose rules gave these outcomes, in order:
/// the first outcome that is not a plain "no", else "no".
pub fn first_match<T>(outcomes: Vec<RuleOutcome<T>>) -> (r: RuleOutcome<T>)
    ensures
        r == first_match_spec(outcomes@),
{
    let mut work = outcomes;
    let ghost all = work@;
    let n = work.len();
    let mut i: usize = 0;
    while i < n
        invariant
            work@ == all,
            all == outcomes@,
            n == all.len(),
            i <= n,
            first_match_from(all, 0) == first_match_from(all, i as int),
        decreases n - i,
    {
        if !work[i].rejects() {
            assert(first_match_from(all, i as int) == all[i as int]);
            return work.remove(i);
        }
        i = i + 1;
    }
    RuleOutcome::Flag(false)
}

/// A combination answers "no" exactly when every combined rule answered "no".
pub proof fn lemma_first_match_rejects_iff_all_reject<T>(outcomes: Seq<RuleOutcome<T>>)
    ensures
        first_match_spec(outcomes).is_false_flag() <==> forall|j: int|
            0 <= j < outcomes.len() ==> #[trigger] outcomes[j].is_false_flag(),
{
    lemma_from_rejects(outcomes, 0);
}

proof fn lemma_from_rejects<T>(outcomes: Seq<RuleOutcome<T>>, i: int)
    requires
        0 <= i <= outcomes.len(),
    ensures
        first_match_from(outcomes, i).is_false_flag() <==> forall|j: int|
            i <= j < outcomes.len() ==> #[trigger] outcomes[j].is_false_flag(),
    decreases outcomes.len() - i,
{
    if i < outcomes.len() {
        lemma_from_rejects(outcomes, i + 1);
    }
}

/// A combination answers with one of the outcomes of its rules, or "no".
pub proof fn lemma_first_match_is_an_outcome<T>(outcomes: Seq<RuleOutcome<T>>)
    ensures
        first_match_spec(outcomes) == RuleOutcome::<T>::Flag(false) || exists|j: int|
            0 <= j < outcomes.len() && first_match_spec(outcomes) == #[trigger] outcomes[j],
{
    lemma_from_is_an_outcome(outcomes, 0);
}

proof fn lemma_from_is_an_outcome<T>(outcomes: Seq<RuleOutcome<T>>, i: int)
    requires
        0 <= i <= outcomes.len(),
    ensures
        first_match_from(outcomes, i) == RuleOutcome::<T>::Flag(false) || exists|j: int|
            i <= j < outcomes.len() && first_match_from(outcomes, i) == #[trigger] outcomes[j],
    decreases outcomes.len() - i,
{
    if i < outcomes.len() {
        lemma_from_is_an_outcome(outcomes, i + 1);
    }
}

/// Adding a rule to a combination only matters when the combination so far
/// answered "no": then the new rule's outcome is the answer.
pub proof fn lemma_first_match_push<T>(outcomes: Seq<RuleOutcome<T>>, last: RuleOutcome<T>)
    ensures
        first_match_spec(outcomes.push(last)) == if first_match_spec(outcomes).is_false_flag() {
            if last.is_false_flag() {
                RuleOutcome::Flag(false)
            } else {
                last
            }
        } else {
            first_match_spec(outcomes)
        },
{
    lemma_from_push(outcomes, last, 0);
}

proof fn lemma_from_push<T>(outcomes: Seq<RuleOutcome<T>>, last: RuleOutcome<T>, i: int)
    requires
        0 <= i <= outcomes.len(),
    ensures
        first_match_from(outcomes.push(last), i) == if first_match_from(
            outcomes,
            i,
        ).is_false_flag() {
            if last.is_false_flag() {
                RuleOutcome::Flag(false)
            } else {
                last
            }
        } else {
            first_match_from(outcomes, i)
        },
    decreases outcomes.len() - i,
{
    if i < outcomes.len() {
        assert(outcomes.push(last)[i] == outcomes[i]);
        lemma_from_push(outcomes, last, i + 1);
    } else {
        assert(outcomes.push(last)[i] == last);
        assert(first_match_from(outcomes.push(last), i + 1) == RuleOutcome::<T>::Flag(false));
    }
}

/// On plain yes/no answers a combination is the disjunction: it answers
/// "yes" exactly when some rule did, else "no" (so a combination of no
/// rules answers "no", and of one rule answers as that rule).
pub proof fn lemma_first_match_is_disjunction<T>(outcomes: Seq<RuleOutcome<T>>)
    requires
        forall|j: int| 0 <= j < outcomes.len() ==> (#[trigger] outcomes[j]) is Flag,
    ensures
        first_match_spec(outcomes) == RuleOutcome::<T>::Flag(
            exists|j: int| 0 <= j < outcomes.len() && #[trigger] outcomes[j] == RuleOutcome::<T>::Flag(true),
        ),
{
    lemma_from_is_disjunction(outcomes, 0);
}

proof fn lemma_from_is_disjunction<T>(outcomes: Seq<RuleOutcome<T>>, i: int)
    requires
        0 <= i <= outcomes.len(),
        forall|j: int| 0 <= j < outcomes.len() ==> (#[trigger] outcomes[j]) is Flag,
    ensures
        first_match_from(outcomes, i) == RuleOutcome::<T>::Flag(
            exists|j: int| i <= j < outcomes.len() && #[trigger] outcomes[j] == RuleOutcome::<T>::Flag(true),
        ),
    decreases outcomes.len() - i,
{
    if i < outcomes.len() {
        lemma_from_is_disjunction(outcomes, i + 1);
        assert(outcomes[i] is Flag);
        if outcomes[i] == RuleOutcome::<T>::Flag(true) {
            assert(exists|j: int| i <= j < outcomes.len() && #[trigger] outcomes[j] == RuleOutcome::<T>::Flag(true));
        } else {
            assert(outcomes[i] == RuleOutcome::<T>::Flag(false));
            if exists|j: int| i <= j < outcomes.len() && #[trigger] outcomes[j] == RuleOutcome::<T>::Flag(true) {
                let j = choose|j: int| i <= j < outcomes.len() && #[trigger] outcomes[j] == RuleOutcome::<T>::Flag(true);
                assert(j != i);
                assert(exists|k: int| i + 1 <= k < outcomes.len() && #[trigger] outcomes[k] == RuleOutcome::<T>::Flag(true));
            }
        }
    }
}

/// The answer of a combination is decided by its first rule that does not
/// say "no": every rule before that one said "no", and the answer is that
/// rule's outcome itself.
pub proof fn lemma_first_match_picks_first<T>(outcomes: Seq<RuleOutcome<T>>, k: int)
    requires
        0 <= k < outcomes.len(),
        !outcomes[k].is_false_flag(),
        forall|j: int| 0 <= j < k ==> (#[trigger] outcomes[j]).is_false_flag(),
    ensures
        first_match_spec(outcomes) == outcomes[k],
{
    lemma_from_picks_first(outcomes, 0, k);
}

proof fn lemma_from_picks_first<T>(outcomes: Seq<RuleOutcome<T>>, i: int, k: int)
    requires
        0 <= i <= k < outcomes.len(),
        !outcomes[k].is_false_flag(),
        forall|j: int| 0 <= j < k ==> (#[trigger] outcomes[j]).is_false_flag(),
    ensures
        first_match_from(outcomes, i) == outcomes[k],
    decreases k - i,
{
    if i < k {
        assert(outcomes[i].is_false_flag());
        lemma_from_picks_first(outcomes, i + 1, k);
    }
}

} // verus!
