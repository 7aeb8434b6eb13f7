//! Checking all the rules of a handler against an update.
use vstd::prelude::*;

use crate::types::RuleOutcome;

verus! {

/// The data that the `Value` outcomes carry, in order.
pub open spec fn payload_values<T>(outcomes: Seq<RuleOutcome<T>>) -> Seq<T>
    decreases outcomes.len(),
{
    if outcomes.len() == 0 {
        Seq::empty()
    } else {
        let rest = payload_values(outcomes.drop_last());
        match outcomes.last() {
            RuleOutcome::Value(t) => rest.push(t),
            _ => rest,
        }
    }
}

/// The index of the first failing outcome at or after `i`, or the length
/// when there is none.
pub open spec fn first_failure_from<T>(outcomes: Seq<RuleOutcome<T>>, i: int) -> int
    decreases outcomes.len() - i,
{
    if i < 0 || i >= outcomes.len() {
        outcomes.len() as int
    } else if outcomes[i].is_failure() {
        i
    } else {
        first_failure_from(outcomes, i + 1)
    }
}

/// How many outcomes a check takes into account: a strict check stops at
/// the first failure, a lenient one looks at them all.
pub open spec fn examined<T>(strict: bool, outcomes: Seq<RuleOutcome<T>>) -> int {
    if strict {
        first_failure_from(outcomes, 0)
    } else {
        outcomes.len() as int
    }
}

/// Whether no outcome fails.
pub open spec fn none_fail<T>(outcomes: Seq<RuleOutcome<T>>) -> bool {
    forall|j: int| 0 <= j < outcomes.len() ==> !(#[trigger] outcomes[j]).is_failure()
}

/// One call that changed a check result: data collected, or a failure.
pub enum CheckEvent<T> {
    Added(T),
    Failed,
}

/// The data collected by a sequence of calls, in the order it was added.
pub open spec fn added_items<T>(events: Seq<CheckEvent<T>>) -> Seq<T>
    decreases events.len(),
{
    if events.len() == 0 {
        Seq::empty()
    } else {
        let rest = added_items(events.drop_last());
        match events.last() {
            CheckEvent::Added(t) => rest.push(t),
            CheckEvent::Failed => rest,
        }
    }
}

/// Whether a sequence of calls recorded a failure.
pub open spec fn has_failure<T>(events: Seq<CheckEvent<T>>) -> bool {
    exists|j: int| 0 <= j < events.len() && (#[trigger] events[j]) is Failed
}

/// What a check of all the rules found: whether they all passed, and the
/// data they handed back. It remembers (as a ghost record) every call that
/// changed it since it was made.
pub struct RuleCheckResult<T> {
    passed: bool,
    payload: Vec<T>,
    history: Ghost<Seq<CheckEvent<T>>>,
}

impl<T> RuleCheckResult<T> {
    /// Whether every rule examined so far passed.
    pub closed spec fn passed(&self) -> bool {
        self.passed
    }

    /// The data handed back so far, in order.
    pub closed spec fn payload(&self) -> Seq<T> {
        self.payload@
    }

    /// The calls of `mark_failed` and `add_payload` since the result was made, in order.
    pub closed spec fn history(&self) -> Seq<CheckEvent<T>> {
        self.history@
    }

    /// A result passes exactly while no failure was recorded, and holds the
    /// data added, in the order it was added. Every result made by `new`
    /// and changed only by the methods below is so.
    pub closed spec fn wf(&self) -> bool {
        &&& self.passed == !has_failure(self.history@)
        &&& self.payload@ == added_items(self.history@)
    }

    /// A result with nothing failed and nothing collected.
    pub fn new() -> (r: Self)
        ensures
            r.passed(),
            r.payload() == Seq::<T>::empty(),
            r.history() == Seq::<CheckEvent<T>>::empty(),
            r.wf(),
    {
        RuleCheckResult { passed: true, payload: Vec::new(), history: Ghost(Seq::empty()) }
    }

    /// Records that a rule failed.
    pub fn mark_failed(&mut self)
        requires
            old(self).wf(),
        ensures
            final(self).wf(),
            !final(self).passed(),
            final(self).payload() == old(self).payload(),
            final(self).history() == old(self).history().push(CheckEvent::Failed),
    {
        let ghost h = self.history@.push(CheckEvent::Failed);
        proof {
            assert(h.drop_last() =~= self.history@);
            assert(h[h.len() - 1] is Failed);
        }
        self.history = Ghost(h);
        self.passed = false;
    }

    /// Collects the data a rule handed back.
    pub fn add_payload(&mut self, item: T)
        requires
            old(self).wf(),
        ensures
            final(self).wf(),
            final(self).passed() == old(self).passed(),
            final(self).payload() == old(self).payload().push(item),
            final(self).history() == old(self).history().push(CheckEvent::Added(item)),
    {
        let ghost h = self.history@.push(CheckEvent::Added(item));
        proof {
            assert(h.drop_last() =~= self.history@);
            assert(has_failure(h) == has_failure(self.history@)) by {
                if has_failure(h) {
                    let j = choose|j: int| 0 <= j < h.len() && (#[trigger] h[j]) is Failed;
                    assert(self.history@[j] == h[j]);
                }
                if has_failure(self.history@) {
                    let j = choose|j: int| 0 <= j < self.history@.len() && (#[trigger] self.history@[j]) is Failed;
                    assert(h[j] == self.history@[j]);
                }
            }
        }
        self.history = Ghost(h);
        self.payload.push(item);
    }

    /// Whether every rule passed: exactly when no failure was ever recorded.
    pub fn all_passed(&self) -> (r: bool)
        requires
            self.wf(),
        ensures
            r == self.passed(),
            r == !has_failure(self.history()),
    {
        self.passed
    }

    /// The data collected: exactly the items added, in the order they were
    /// added, whether or not the check passed.
    pub fn into_payload(self) -> (r: Vec<T>)
        requires
            self.wf(),
        ensures
            r@ == self.payload(),
            r@ == added_items(self.history()),
    {
        self.payload
    }
}

/// Checks the rules of a handler one after the other. A rule fails when it
/// answers "no" or with the unit value; any other data it hands back is
/// collected. A strict checker stops at the first failure.
pub struct RuleChecker {
    strict_mode: bool,
}

impl RuleChecker {
    /// Whether this checker stops at the first failure.
    pub closed spec fn is_strict(&self) -> bool {
        self.strict_mode
    }

    /// A lenient checker.
    pub fn new() -> (r: Self)
        ensures
            !r.is_strict(),
    {
        RuleChecker { strict_mode: false }
    }

    /// The same checker, strict or not as `strict` says.
    pub fn strict(self, strict: bool) -> (r: Self)
        ensures
            r.is_strict() == strict,
    {
        RuleChecker { strict_mode: strict }
    }

    /// Takes one more rule outcome into account; the answer says whether
    /// the check goes on to the next rule.
    pub fn observe<T>(&self, result: &mut RuleCheckResult<T>, outcome: RuleOutcome<T>) -> (go_on: bool)
        requires
            old(result).wf(),
        ensures
            final(result).wf(),
            outcome.is_failure() ==> !final(result).passed() && final(result).payload() == old(
                result,
            ).payload() && go_on == !self.is_strict(),
            !outcome.is_failure() ==> final(result).passed() == old(result).passed() && go_on,
            outcome matches RuleOutcome::Value(t) ==> final(result).payload() == old(
                result,
            ).payload().push(t),
            outcome matches RuleOutcome::Flag(true) ==> final(result).payload() == old(
                result,
            ).payload(),
    {
        match outcome {
            RuleOutcome::Flag(success) => {
                if !success {
                    result.mark_failed();
                    !self.strict_mode
                } else {
                    true
                }
            },
            RuleOutcome::Unit => {
                result.mark_failed();
                !self.strict_mode
            },
            RuleOutcome::Value(item) => {
                result.add_payload(item);
                true
            },
        }
    }

    /// Checks the outcomes of all the rules, in order: the check passes
    /// exactly when no rule failed, and it collects the data of the rules
    /// it examined (all of them, or for a strict checker those before the
    /// first failure).
    pub fn check<T>(&self, outcomes: Vec<RuleOutcome<T>>) -> (r: RuleCheckResult<T>)
        ensures
            r.wf(),
            r.passed() == none_fail(outcomes@),
            r.payload() == payload_values(outcomes@.take(examined(self.is_strict(), outcomes@))),
    {
        let mut result = RuleCheckResult::new();
        let mut work = outcomes;
        let ghost all = work@;
        let n = work.len();
        let mut i: usize = 0;
        while i < n
            invariant
                all == outcomes@,
                n == all.len(),
                i <= n,
                work@ == all.skip(i as int),
                result.passed() == (forall|j: int| 0 <= j < i ==> !(#[trigger] all[j]).is_failure()),
                self.is_strict() ==> result.passed(),
                result.wf(),
                result.payload() == payload_values(all.take(i as int)),
            decreases n - i,
        {
            let ghost before = result.payload();
            assert(all.take(i + 1).drop_last() == all.take(i as int));
            assert(work@[0] == all[i as int]);
            let outcome = work.remove(0);
            assert(work@ =~= all.skip(i + 1));
            let go_on = self.observe(&mut result, outcome);
            if !go_on {
                proof {
                    lemma_first_failure_at(all, 0, i as int);
                    assert(!none_fail(all));
                }
                return result;
            }
            i = i + 1;
        }
        proof {
            if self.is_strict() {
                lemma_first_failure_at(all, 0, n as int);
            }
            assert(all.take(n as int) == all);
        }
        result
    }
}

impl Default for RuleChecker {
    fn default() -> (r: Self)
        ensures
            !r.is_strict(),
    {
        RuleChecker::new()
    }
}

/// When no outcome from `k` up to `i` fails and the one at `i` fails (or
/// `i` is the end), the first failure from `k` on is at `i`.
pub proof fn lemma_first_failure_at<T>(outcomes: Seq<RuleOutcome<T>>, k: int, i: int)
    requires
        0 <= k <= i <= outcomes.len(),
        forall|j: int| k <= j < i ==> !(#[trigger] outcomes[j]).is_failure(),
        i == outcomes.len() || outcomes[i].is_failure(),
    ensures
        first_failure_from(outcomes, k) == i,
    decreases i - k,
{
    if k < i {
        lemma_first_failure_at(outcomes, k + 1, i);
    }
}

/// The data collected from a prefix of the outcomes is a prefix of the data
/// collected from all of them.
pub proof fn lemma_payload_prefix<T>(outcomes: Seq<RuleOutcome<T>>, k: int, m: int)
    requires
        0 <= k <= m <= outcomes.len(),
    ensures
        payload_values(outcomes.take(k)).is_prefix_of(payload_values(outcomes.take(m))),
    decreases m - k,
{
    if k < m {
        lemma_payload_prefix(outcomes, k, m - 1);
        assert(outcomes.take(m).drop_last() == outcomes.take(m - 1));
        let a = payload_values(outcomes.take(k));
        let b = payload_values(outcomes.take(m - 1));
        let c = payload_values(outcomes.take(m));
        assert(a.is_prefix_of(c)) by {
            assert forall|j: int| 0 <= j < a.len() implies a[j] == c[j] by {
                assert(a[j] == b[j]);
            }
            assert(a =~= c.subrange(0, a.len() as int));
        }
    }
}

/// A strict and a lenient check of the same outcomes agree on whether the
/// rules passed, and the strict one collects a prefix of what the lenient
/// one collects (all of it when every rule passed).
pub proof fn lemma_strict_and_lenient_agree<T>(outcomes: Seq<RuleOutcome<T>>)
    ensures
        payload_values(outcomes.take(examined(true, outcomes))).is_prefix_of(
            payload_values(outcomes.take(examined(false, outcomes))),
        ),
        none_fail(outcomes) ==> examined(true, outcomes) == examined(false, outcomes),
{
    lemma_first_failure_bound(outcomes, 0);
    lemma_payload_prefix(outcomes, examined(true, outcomes), outcomes.len() as int);
    if none_fail(outcomes) {
        lemma_first_failure_at(outcomes, 0, outcomes.len() as int);
    }
}

proof fn lemma_first_failure_bound<T>(outcomes: Seq<RuleOutcome<T>>, i: int)
    requires
        0 <= i <= outcomes.len(),
    ensures
        i <= first_failure_from(outcomes, i) <= outcomes.len(),
    decreases outcomes.len() - i,
{
    if i < outcomes.len() {
        lemma_first_failure_bound(outcomes, i + 1);
    }
}

/// The data of a check is the data of every `Value` outcome among those it
/// examined, in order and nothing else: adding a `Value` adds its data at
/// the end, adding any other outcome adds nothing.
pub proof fn lemma_payload_values_exact<T>(outcomes: Seq<RuleOutcome<T>>, last: RuleOutcome<T>)
    ensures
        payload_values(outcomes) == outcomes.filter_map(
            |o: RuleOutcome<T>|
                match o {
                    RuleOutcome::Value(t) => Some(t),
                    _ => None,
                },
        ),
        payload_values(outcomes.push(last)) == match last {
            RuleOutcome::Value(t) => payload_values(outcomes).push(t),
            _ => payload_values(outcomes),
        },
        payload_values(outcomes).len() <= outcomes.len(),
    decreases outcomes.len(),
{
    assert(outcomes.push(last).drop_last() == outcomes);
    if outcomes.len() > 0 {
        let rest = outcomes.drop_last();
        lemma_payload_values_exact(rest, last);
        let f = |o: RuleOutcome<T>|
            match o {
                RuleOutcome::Value(t) => Some(t),
                _ => None,
            };
        assert(outcomes.filter_map(f) == match f(outcomes.last()) {
            Some(t) => rest.filter_map(f) + seq![t],
            None => rest.filter_map(f),
        });
        match outcomes.last() {
            RuleOutcome::Value(t) => {
                assert(payload_values(rest).push(t) =~= rest.filter_map(f) + seq![t]);
            },
            _ => {},
        }
    }
}

/// A strict check examines exactly the outcomes before the first failure:
/// none of them fails, and the one at that index (if any) fails.
pub proof fn lemma_examined_is_first_failure<T>(outcomes: Seq<RuleOutcome<T>>)
    ensures
        0 <= examined(true, outcomes) <= outcomes.len(),
        examined(false, outcomes) == outcomes.len(),
        forall|j: int| 0 <= j < examined(true, outcomes) ==> !(#[trigger] outcomes[j]).is_failure(),
        examined(true, outcomes) < outcomes.len() ==> outcomes[examined(true, outcomes)].is_failure(),
{
    lemma_first_failure_props(outcomes, 0);
}

proof fn lemma_first_failure_props<T>(outcomes: Seq<RuleOutcome<T>>, i: int)
    requires
        0 <= i <= outcomes.len(),
    ensures
        i <= first_failure_from(outcomes, i) <= outcomes.len(),
        forall|j: int| i <= j < first_failure_from(outcomes, i) ==> !(#[trigger] outcomes[j]).is_failure(),
        first_failure_from(outcomes, i) < outcomes.len() ==> outcomes[first_failure_from(outcomes, i)].is_failure(),
    decreases outcomes.len() - i,
{
    if i < outcomes.len() {
        lemma_first_failure_props(outcomes, i + 1);
    }
}

/// A check result after any calls holds exactly the data added, in order:
/// adding an item puts it at the end, a failure adds nothing.
pub proof fn lemma_added_items_exact<T>(events: Seq<CheckEvent<T>>, last: CheckEvent<T>)
    ensures
        added_items(events) == events.filter_map(
            |e: CheckEvent<T>|
                match e {
                    CheckEvent::Added(t) => Some(t),
                    CheckEvent::Failed => None,
                },
        ),
        added_items(events.push(last)) == match last {
            CheckEvent::Added(t) => added_items(events).push(t),
            CheckEvent::Failed => added_items(events),
        },
    decreases events.len(),
{
    assert(events.push(last).drop_last() == events);
    if events.len() > 0 {
        let rest = events.drop_last();
        lemma_added_items_exact(rest, last);
        let f = |e: CheckEvent<T>|
            match e {
                CheckEvent::Added(t) => Some(t),
                CheckEvent::Failed => None,
            };
        assert(events.filter_map(f) == match f(events.last()) {
            Some(t) => rest.filter_map(f) + seq![t],
            None => rest.filter_map(f),
        });
        match events.last() {
            CheckEvent::Added(t) => {
                assert(added_items(rest).push(t) =~= rest.filter_map(f) + seq![t]);
            },
            _ => {},
        }
    }
}

} // verus!
