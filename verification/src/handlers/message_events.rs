//! Choosing the one handler, among handlers registered anywhere in the
//! program, that receives an incoming message: the first whose payload
//! (see `check_rules`) is not empty. Outgoing messages go to none.
use vstd::prelude::*;

use crate::types::RuleOutcome;

verus! {

/// Whether the handlers offered so far, in order, had a non-empty payload,
/// and which of them (if any) received the message.
pub struct HandlerSelection {
    done: bool,
    offers: Ghost<Seq<bool>>,
    chosen: Ghost<Option<nat>>,
}

/// The chosen handler is the first one that had a non-empty payload.
pub open spec fn first_claim(offers: Seq<bool>, k: nat) -> bool {
    &&& k < offers.len()
    &&& offers[k as int]
    &&& forall|j: int| 0 <= j < k ==> !(#[trigger] offers[j])
}

impl HandlerSelection {
    /// Whether the selection is over: the message went to a handler, or it
    /// is an outgoing message that no handler receives.
    pub closed spec fn finished(&self) -> bool {
        self.done
    }

    /// For each handler offered so far, in order, whether its payload was
    /// not empty.
    pub closed spec fn offers(&self) -> Seq<bool> {
        self.offers@
    }

    /// The index of the handler that received the message, if any.
    pub closed spec fn chosen(&self) -> Option<nat> {
        self.chosen@
    }

    /// The offers and the choice agree: a handler was chosen exactly when
    /// it was the first with a non-empty payload, and it was the last offered.
    pub open spec fn wf(&self) -> bool {
        &&& self.chosen() matches Some(k) ==> self.finished() && first_claim(self.offers(), k) && k + 1
            == self.offers().len()
        &&& self.chosen() is None ==> forall|j: int|
            0 <= j < self.offers().len() ==> !(#[trigger] self.offers()[j])
    }

    /// A selection for a message; an outgoing message is done with at once.
    pub fn new(outgoing: bool) -> (r: Self)
        ensures
            r.wf(),
            r.finished() == outgoing,
            r.offers() == Seq::<bool>::empty(),
            r.chosen() is None,
    {
        HandlerSelection { done: outgoing, offers: Ghost(Seq::empty()), chosen: Ghost(None) }
    }

    /// Whether the selection is over.
    pub fn is_done(&self) -> (r: bool)
        ensures
            r == self.finished(),
    {
        self.done
    }

    /// Offers the message to the next handler, whose rules left this
    /// payload; the answer says whether that handler receives it, which
    /// ends the selection.
    pub fn offer<T>(&mut self, payload: &Vec<RuleOutcome<T>>) -> (claim: bool)
        requires
            old(self).wf(),
            !old(self).finished(),
        ensures
            final(self).wf(),
            claim == (payload@.len() > 0),
            final(self).offers() == old(self).offers().push(claim),
            final(self).finished() == claim,
            final(self).chosen() == (if claim {
                Some(old(self).offers().len())
            } else {
                None::<nat>
            }),
    {
        let claim = payload.len() > 0;
        let ghost before = self.offers@;
        let ghost after = before.push(claim);
        proof {
            assert(self.chosen@ is None);
            assert forall|j: int| 0 <= j < before.len() implies !(#[trigger] after[j]) by {
                assert(after[j] == before[j]);
                assert(!self.offers()[j]);
            }
        }
        self.offers = Ghost(after);
        if claim {
            self.chosen = Ghost(Some(before.len()));
        }
        self.done = claim;
        claim
    }
}

/// A message goes to at most one handler, the first with a non-empty
/// payload; while no handler took it, every handler offered had an empty
/// payload.
pub proof fn lemma_first_nonempty_payload_wins(selection: HandlerSelection)
    requires
        selection.wf(),
    ensures
        selection.chosen() matches Some(k) ==> first_claim(selection.offers(), k),
        selection.chosen() is None ==> forall|j: int|
            0 <= j < selection.offers().len() ==> !(#[trigger] selection.offers()[j]),
{
}

} // verus!
