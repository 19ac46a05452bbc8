//! Work that is done step by step, in a fixed order.
//!
//! A [`Sequencer`] holds a plan and asks for its steps one after the other.
//! Each step is asked for once, and only when every step before it has been
//! completed. A step that fails ends the sequence: nothing after it is asked
//! for, and the verdict names it.

use vstd::prelude::*;

verus! {

/// What the runtime reports of the step it was asked to perform.
#[derive(Clone, Copy, Debug, PartialEq, Eq, Structural)]
pub enum StepOutcome {
    Completed,
    Failed,
}

/// The step at which a sequence was given up.
#[derive(Debug, PartialEq, Eq)]
pub struct StepFailed<S> {
    pub step: S,
}

/// What the runtime is to do next.
#[derive(Debug, PartialEq, Eq)]
pub enum SequenceAction<S> {
    /// Perform this step and report its outcome.
    Perform(S),
    /// The sequence is over, with this verdict.
    Finish(Result<(), StepFailed<S>>),
}

/// Where a sequence stands.
pub struct SequencerView<S> {
    /// The steps, in the order in which they are performed.
    pub plan: Seq<S>,
    /// How many steps have been completed.
    pub done: nat,
    /// The step after those has failed.
    pub failed: bool,
}

impl<S> SequencerView<S> {
    /// The sequence for `plan`, with nothing done yet.
    pub open spec fn opening(plan: Seq<S>) -> SequencerView<S> {
        SequencerView { plan, done: 0, failed: false }
    }

    /// What the runtime is to do in this state: the first step that has not
    /// been completed; or nothing more, when that step has failed or there is
    /// none.
    pub open spec fn pending(self) -> SequenceAction<S> {
        if self.done < self.plan.len() {
            if self.failed {
                SequenceAction::Finish(Err(StepFailed { step: self.plan[self.done as int] }))
            } else {
                SequenceAction::Perform(self.plan[self.done as int])
            }
        } else {
            SequenceAction::Finish(Ok(()))
        }
    }

    /// The sequence is over.
    pub open spec fn finished(self) -> bool {
        self.failed || self.done >= self.plan.len()
    }

    /// The state after the runtime has reported `outcome`. Once the sequence
    /// is over, reports change nothing.
    pub open spec fn after(self, outcome: StepOutcome) -> SequencerView<S> {
        if self.finished() {
            self
        } else {
            match outcome {
                StepOutcome::Completed => SequencerView { done: self.done + 1, ..self },
                StepOutcome::Failed => SequencerView { failed: true, ..self },
            }
        }
    }

    /// The state after the runtime has reported `outcomes`, in order.
    pub open spec fn after_all(self, outcomes: Seq<StepOutcome>) -> SequencerView<S>
        decreases outcomes.len(),
    {
        if outcomes.len() == 0 {
            self
        } else {
            self.after_all(outcomes.drop_last()).after(outcomes.last())
        }
    }
}

/// The sequencer of a plan.
#[derive(Debug)]
pub struct Sequencer<S> {
    plan: Vec<S>,
    done: usize,
    failed: bool,
}

impl<S> View for Sequencer<S> {
    type V = SequencerView<S>;

    closed spec fn view(&self) -> SequencerView<S> {
        SequencerView { plan: self.plan@, done: self.done as nat, failed: self.failed }
    }
}

impl<S: Copy> Sequencer<S> {
    /// A sequencer for `plan`, with nothing done yet.
    pub fn new(plan: Vec<S>) -> (sequencer: Sequencer<S>)
        ensures
            sequencer@ == SequencerView::opening(plan@),
    {
        Sequencer { plan, done: 0, failed: false }
    }

    /// What the runtime is to do next.
    pub fn pending(&self) -> (action: SequenceAction<S>)
        ensures
            action == self@.pending(),
    {
        if self.done < self.plan.len() {
            let step = self.plan[self.done];
            if self.failed {
                SequenceAction::Finish(Err(StepFailed { step }))
            } else {
                SequenceAction::Perform(step)
            }
        } else {
            SequenceAction::Finish(Ok(()))
        }
    }

    /// How many steps have been completed.
    pub fn completed(&self) -> (done: usize)
        ensures
            done == self@.done,
    {
        self.done
    }

    /// Takes the outcome of the step that was asked for and says what is
    /// next.
    pub fn advance(&mut self, outcome: StepOutcome) -> (action: SequenceAction<S>)
        ensures
            final(self)@ == old(self)@.after(outcome),
            action == old(self)@.after(outcome).pending(),
    {
        if !self.failed && self.done < self.plan.len() {
            match outcome {
                StepOutcome::Completed => {
                    self.done = self.done + 1;
                },
                StepOutcome::Failed => {
                    self.failed = true;
                },
            }
        }
        self.pending()
    }
}

/// All of `outcomes` are completions.
pub open spec fn all_completed(outcomes: Seq<StepOutcome>) -> bool {
    forall|k: int| 0 <= k < outcomes.len() ==> #[trigger] outcomes[k] == StepOutcome::Completed
}

/// The steps are asked for in the order of the plan, each once: after any
/// number of completions, the step asked for is the one at that place in the
/// plan, and when the plan is exhausted the verdict is success.
pub proof fn steps_follow_the_plan<S>(plan: Seq<S>, outcomes: Seq<StepOutcome>)
    requires
        all_completed(outcomes),
    ensures
        SequencerView::opening(plan).after_all(outcomes).failed == false,
        SequencerView::opening(plan).after_all(outcomes).plan == plan,
        outcomes.len() < plan.len() ==> {
            &&& SequencerView::opening(plan).after_all(outcomes).done == outcomes.len()
            &&& SequencerView::opening(plan).after_all(outcomes).pending()
                == SequenceAction::Perform(plan[outcomes.len() as int])
        },
        outcomes.len() >= plan.len() ==> {
            &&& SequencerView::opening(plan).after_all(outcomes).done == plan.len()
            &&& SequencerView::opening(plan).after_all(outcomes).pending()
                == SequenceAction::<S>::Finish(Ok(()))
        },
    decreases outcomes.len(),
{
    if outcomes.len() > 0 {
        let before = outcomes.drop_last();
        assert forall|k: int| 0 <= k < before.len() implies #[trigger] before[k]
            == StepOutcome::Completed by {
            assert(outcomes[k] == StepOutcome::Completed);
        }
        steps_follow_the_plan(plan, before);
        assert(outcomes[outcomes.len() - 1] == StepOutcome::Completed);
    }
}

/// A step that fails ends the sequence: whatever is reported afterwards, the
/// verdict names that step, and no step after it is ever asked for.
pub proof fn failure_ends_the_sequence<S>(plan: Seq<S>, outcomes: Seq<StepOutcome>, at: int)
    requires
        0 <= at < outcomes.len(),
        at < plan.len(),
        all_completed(outcomes.take(at)),
        outcomes[at] == StepOutcome::Failed,
    ensures
        SequencerView::opening(plan).after_all(outcomes).done == at,
        SequencerView::opening(plan).after_all(outcomes).pending() == SequenceAction::Finish(
            Err(StepFailed { step: plan[at] }),
        ),
    decreases outcomes.len(),
{
    let before = outcomes.drop_last();
    if at == outcomes.len() - 1 {
        assert(before =~= outcomes.take(at));
        steps_follow_the_plan(plan, before);
    } else {
        assert(before.take(at) =~= outcomes.take(at));
        failure_ends_the_sequence(plan, before, at);
    }
}

} // verus!
