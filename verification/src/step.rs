//! The steps of the procedure and the table that holds them in order.

use vstd::prelude::*;
use crate::msg::CompletionAction;

verus! {

/// One instruction of the procedure.
#[derive(Clone, Copy, Debug, PartialEq, Eq)]
pub struct Step {
    /// The count of elapsed seconds at which a running clock makes this step the current one.
    pub display_at_count: u32,
    /// What the user is told to do.
    pub instruction: &'static str,
    /// What the user is told while waiting for the following step; may be empty.
    pub next_instruction: &'static str,
    /// What completing the step asks of the controller.
    pub on_click: CompletionAction,
}

/// A step as contracts see it: its threshold as a natural number, its texts as
/// sequences of characters.
pub struct StepView {
    pub display_at_count: nat,
    pub instruction: Seq<char>,
    pub next_instruction: Seq<char>,
    pub on_click: CompletionAction,
}

impl View for Step {
    type V = StepView;

    open spec fn view(&self) -> StepView {
        StepView {
            display_at_count: self.display_at_count as nat,
            instruction: self.instruction@,
            next_instruction: self.next_instruction@,
            on_click: self.on_click,
        }
    }
}

/// The thresholds never go down from one step to a later one.
pub open spec fn thresholds_ascend(steps: Seq<StepView>) -> bool {
    forall|i: int, j: int|
        0 <= i <= j < steps.len() ==> steps[i].display_at_count <= steps[j].display_at_count
}

/// What makes a sequence of steps a procedure: there is at least one step, the
/// thresholds never go down, and the last step has the action `Finish`.
pub open spec fn is_procedure(steps: Seq<StepView>) -> bool {
    &&& steps.len() > 0
    &&& thresholds_ascend(steps)
    &&& steps.last().on_click == CompletionAction::Finish
}

/// The views of the given steps, in order.
pub open spec fn views_of(steps: Seq<Step>) -> Seq<StepView> {
    Seq::new(steps.len(), |i: int| steps[i]@)
}

/// An ordered, immutable procedure. Every table is a procedure in the sense of
/// [`is_procedure`]: `new` admits no other sequence of steps.
pub struct StepTable {
    steps: Vec<Step>,
}

impl View for StepTable {
    type V = Seq<StepView>;

    closed spec fn view(&self) -> Seq<StepView> {
        views_of(self.steps@)
    }
}

impl StepTable {
    #[verifier::type_invariant]
    pub(crate) open spec fn holds_a_procedure(self) -> bool {
        is_procedure(self@)
    }

    /// Makes a table of `steps`, if they form a procedure.
    pub fn new(steps: Vec<Step>) -> (table: Option<StepTable>)
        ensures
            table is Some <==> is_procedure(views_of(steps@)),
            table matches Some(t) ==> t@ == views_of(steps@),
    {
        let n: usize = steps.len();
        if n == 0 {
            return None;
        }
        let mut i: usize = 1;
        while i < n
            invariant
                n == steps.len(),
                1 <= i <= n,
                thresholds_ascend(views_of(steps@).take(i as int)),
            decreases n - i,
        {
            if steps[i - 1].display_at_count > steps[i].display_at_count {
                proof {
                    let all = views_of(steps@);
                    assert(all[i - 1].display_at_count > all[i as int].display_at_count);
                }
                return None;
            }
            proof {
                let all = views_of(steps@);
                let before = all.take(i as int);
                let after = all.take(i + 1);
                assert forall|j: int, k: int| 0 <= j <= k < after.len() implies after[j].display_at_count
                    <= after[k].display_at_count by {
                    if k < i {
                        assert(before[j].display_at_count <= before[k].display_at_count);
                    } else if j < i {
                        assert(before[j].display_at_count <= before[i - 1].display_at_count);
                    }
                }
            }
            i += 1;
        }
        proof {
            let all = views_of(steps@);
            assert(all.take(n as int) =~= all);
        }
        match steps[n - 1].on_click {
            CompletionAction::Finish => Some(StepTable::from_procedure(steps)),
            _ => None,
        }
    }

    /// Makes a table of steps that are known to form a procedure.
    pub(crate) fn from_procedure(steps: Vec<Step>) -> (table: StepTable)
        requires
            is_procedure(views_of(steps@)),
        ensures
            table@ == views_of(steps@),
    {
        StepTable { steps }
    }

    /// The number of steps; never zero, since every table holds a procedure.
    pub fn len(&self) -> (n: usize)
        ensures
            n == self@.len(),
            is_procedure(self@),
    {
        proof {
            use_type_invariant(self);
        }
        self.steps.len()
    }

    /// The step at `index`, or `None` where the table has no such step.
    pub fn get(&self, index: usize) -> (step: Option<Step>)
        ensures
            match step {
                Some(s) => index < self@.len() && s@ == self@[index as int],
                None => index >= self@.len(),
            },
    {
        if index < self.steps.len() {
            Some(self.steps[index])
        } else {
            None
        }
    }

    /// The step at `index`, which the table is known to have.
    pub(crate) fn at(&self, index: usize) -> (step: Step)
        requires
            index < self@.len(),
        ensures
            step@ == self@[index as int],
    {
        self.steps[index]
    }

    /// The step that ends the procedure.
    pub fn last(&self) -> (step: Step)
        ensures
            step@ == self@.last(),
            step.on_click == CompletionAction::Finish,
    {
        proof {
            use_type_invariant(self);
        }
        self.steps[self.steps.len() - 1]
    }
}

} // verus!
