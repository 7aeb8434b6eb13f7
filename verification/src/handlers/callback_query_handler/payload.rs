//! Collecting what the rules of a handler handed back, for handlers that
//! are called whenever at least one rule had something to say.
use vstd::prelude::*;

use crate::types::RuleOutcome;

verus! {

/// The outcomes that are not a plain "no", in order.
pub open spec fn kept_outcomes<T>(outcomes: Seq<RuleOutcome<T>>) -> Seq<RuleOutcome<T>>
    decreases outcomes.len(),
{
    if outcomes.len() == 0 {
        Seq::empty()
    } else {
        let rest = kept_outcomes(outcomes.drop_last());
        if outcomes.last().is_false_flag() {
            rest
        } else {
            rest.push(outcomes.last())
        }
    }
}

/// The payload of a handler whose rules gave these outcomes, in order:
/// every outcome except the plain "no" answers.
pub fn check_rules<T>(outcomes: Vec<RuleOutcome<T>>) -> (r: Vec<RuleOutcome<T>>)
    ensures
        r@ == kept_outcomes(outcomes@),
{
    let mut payload: Vec<RuleOutcome<T>> = Vec::new();
    let mut work = outcomes;
    let ghost all = work@;
    let n = work.len();
    let mut i: usize = 0;
    while i < n
        invariant
            all == outcomes@,
            n == all.len(),
            i <= n,
            work@ == all.skip(i as int),
            payload@ == kept_outcomes(all.take(i as int)),
        decreases n - i,
    {
        assert(all.take(i + 1).drop_last() == all.take(i as int));
        assert(work@[0] == all[i as int]);
        let outcome = work.remove(0);
        assert(work@ =~= all.skip(i + 1));
        if !outcome.rejects() {
            payload.push(outcome);
        }
        i = i + 1;
    }
    assert(all.take(n as int) == all);
    payload
}

/// A handler gets a payload (and so is called) exactly when at least one of
/// its rules did not answer "no".
pub proof fn lemma_payload_empty_iff_all_reject<T>(outcomes: Seq<RuleOutcome<T>>)
    ensures
        kept_outcomes(outcomes).len() == 0 <==> forall|j: int|
            0 <= j < outcomes.len() ==> #[trigger] outcomes[j].is_false_flag(),
    decreases outcomes.len(),
{
    if outcomes.len() > 0 {
        let init = outcomes.drop_last();
        lemma_payload_empty_iff_all_reject(init);
        assert forall|j: int| 0 <= j < init.len() implies init[j] == outcomes[j] by {}
        if kept_outcomes(outcomes).len() == 0 {
            assert forall|j: int| 0 <= j < outcomes.len() implies #[trigger] outcomes[j].is_false_flag() by {
                if j < init.len() {
                    assert(init[j].is_false_flag());
                }
            }
        } else if forall|j: int| 0 <= j < outcomes.len() ==> #[trigger] outcomes[j].is_false_flag() {
            assert(outcomes[outcomes.len() - 1].is_false_flag());
            assert forall|j: int| 0 <= j < init.len() implies #[trigger] init[j].is_false_flag() by {
                assert(outcomes[j].is_false_flag());
            }
        }
    }
}

/// Every outcome kept in a payload is one of the outcomes and not a "no".
pub proof fn lemma_kept_are_outcomes<T>(outcomes: Seq<RuleOutcome<T>>)
    ensures
        forall|k: int| 0 <= k < kept_outcomes(outcomes).len() ==> {
            &&& !(#[trigger] kept_outcomes(outcomes)[k]).is_false_flag()
            &&& outcomes.contains(kept_outcomes(outcomes)[k])
        },
    decreases outcomes.len(),
{
    if outcomes.len() > 0 {
        let init = outcomes.drop_last();
        lemma_kept_are_outcomes(init);
        assert forall|k: int| 0 <= k < kept_outcomes(outcomes).len() implies {
            &&& !(#[trigger] kept_outcomes(outcomes)[k]).is_false_flag()
            &&& outcomes.contains(kept_outcomes(outcomes)[k])
        } by {
            if k < kept_outcomes(init).len() {
                let j = choose|j: int| 0 <= j < init.len() && init[j] == kept_outcomes(init)[k];
                assert(outcomes[j] == init[j]);
            } else {
                assert(outcomes[outcomes.len() - 1] == outcomes.last());
            }
        }
    }
}

/// The payload of a callback handler is exactly the outcomes that are not a
/// plain "no", in order: adding any other outcome adds it at the end,
/// adding a "no" adds nothing.
pub proof fn lemma_kept_outcomes_exact<T>(outcomes: Seq<RuleOutcome<T>>, last: RuleOutcome<T>)
    ensures
        kept_outcomes(outcomes) == outcomes.filter(|o: RuleOutcome<T>| !o.is_false_flag()),
        kept_outcomes(outcomes.push(last)) == if last.is_false_flag() {
            kept_outcomes(outcomes)
        } else {
            kept_outcomes(outcomes).push(last)
        },
    decreases outcomes.len(),
{
    reveal_with_fuel(Seq::<_>::filter, 1);
    assert(outcomes.push(last).drop_last() == outcomes);
    if outcomes.len() > 0 {
        lemma_kept_outcomes_exact(outcomes.drop_last(), last);
    }
}

} // verus!
