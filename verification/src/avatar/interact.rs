//! Offering an interaction to the handlers of the thing a character faces.
use vstd::prelude::*;

verus! {

/// Whether any handler has accepted, after `answers` (in order) were given by the handlers
/// asked, starting from `accepted`.
pub open spec fn accepted_after(accepted: bool, answers: Seq<bool>) -> bool
    decreases answers.len(),
{
    if answers.len() == 0 {
        accepted
    } else {
        accepted_after(accepted, answers.drop_last()) || answers.last()
    }
}

/// An interaction offered to the handlers of a target one by one: each handler that can
/// interact does, and the character reports the interaction when at least one did.
pub struct InteractionRound {
    interacted: bool,
}

impl View for InteractionRound {
    type V = bool;

    /// Whether some handler has accepted so far.
    closed spec fn view(&self) -> bool {
        self.interacted
    }
}

impl InteractionRound {
    /// No handler asked yet.
    pub fn new() -> (r: Self)
        ensures
            r@ == false,
    {
        InteractionRound { interacted: false }
    }

    /// A handler answered `can_interact`; returns whether it must now be told to interact.
    pub fn offer(&mut self, can_interact: bool) -> (interact: bool)
        ensures
            interact == can_interact,
            final(self)@ == (old(self)@ || can_interact),
    {
        if can_interact {
            self.interacted = true;
        }
        can_interact
    }

    /// Whether the character reports that it interacted with the target.
    pub fn interacted(&self) -> (r: bool)
        ensures
            r == self@,
    {
        self.interacted
    }
}

/// The character reports an interaction exactly when at least one handler accepted it.
pub proof fn lemma_reported_iff_accepted(answers: Seq<bool>)
    ensures
        accepted_after(false, answers) <==> answers.contains(true),
    decreases answers.len(),
{
    if answers.len() > 0 {
        lemma_reported_iff_accepted(answers.drop_last());
        if answers.drop_last().contains(true) {
            let i = choose|i: int| 0 <= i < answers.drop_last().len() && answers.drop_last()[i] == true;
            assert(answers[i] == true);
        }
        if answers.contains(true) && !answers.last() {
            let i = choose|i: int| 0 <= i < answers.len() && answers[i] == true;
            assert(answers.drop_last()[i] == true);
        }
    }
}

} // verus!
