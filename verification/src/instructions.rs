//! The procedure that the timer ships with: eight steps for an inverted AeroPress.

use vstd::prelude::*;
use crate::msg::CompletionAction;
use crate::step::{is_procedure, views_of, Step, StepTable, StepView};

verus! {

/// Milliseconds between two ticks of the clock: one second.
pub const TIMER_SPEED: u64 = 1000;

/// The steps of the brewing procedure, in order: three that the user works through
/// by hand, the last of which starts the clock, then five that come up as the count
/// reaches 15, 60, 80, 90 and 105 seconds.
pub open spec fn brewing_procedure() -> Seq<StepView> {
    seq![
        StepView {
            display_at_count: 0,
            instruction: "Set your AeroPress inverted and wet a paper filters with hot water."@,
            next_instruction: ""@,
            on_click: CompletionAction::Advance,
        },
        StepView {
            display_at_count: 0,
            instruction: "Set your water temperature at 81 celsius degrees, put in one scoop of the coffee and fill up with 70 grams of water."@,
            next_instruction: ""@,
            on_click: CompletionAction::Advance,
        },
        StepView {
            display_at_count: 0,
            instruction: "Start timer and swirl your AeroPress around for 15 seconds."@,
            next_instruction: ""@,
            on_click: CompletionAction::StartTimer,
        },
        StepView {
            display_at_count: 15,
            instruction: "Fill up with the remaining amount of water."@,
            next_instruction: "Wait until 60 seconds, then put the cap on."@,
            on_click: CompletionAction::Advance,
        },
        StepView {
            display_at_count: 60,
            instruction: "Put the cap on"@,
            next_instruction: "Wait until 80 seconds, then invert."@,
            on_click: CompletionAction::Advance,
        },
        StepView {
            display_at_count: 80,
            instruction: "Invert the areopress."@,
            next_instruction: "Wait until 90 seconds and start pluging."@,
            on_click: CompletionAction::Advance,
        },
        StepView {
            display_at_count: 90,
            instruction: "Start plunging."@,
            next_instruction: "Aim to finish within 15 seconds."@,
            on_click: CompletionAction::Advance,
        },
        StepView {
            display_at_count: 105,
            instruction: "Done! Enjoy your coffee."@,
            next_instruction: ""@,
            on_click: CompletionAction::Finish,
        },
    ]
}

/// The brewing procedure is one that a table can hold.
pub proof fn lemma_brewing_procedure_is_procedure()
    ensures
        is_procedure(brewing_procedure()),
{
}

/// The table of the brewing procedure.
pub fn instructions() -> (table: StepTable)
    ensures
        table@ == brewing_procedure(),
{
    let mut steps: Vec<Step> = Vec::new();
    steps.push(
        Step {
            display_at_count: 0,
            instruction: "Set your AeroPress inverted and wet a paper filters with hot water.",
            next_instruction: "",
            on_click: CompletionAction::Advance,
        },
    );
    steps.push(
        Step {
            display_at_count: 0,
            instruction: "Set your water temperature at 81 celsius degrees, put in one scoop of the coffee and fill up with 70 grams of water.",
            next_instruction: "",
            on_click: CompletionAction::Advance,
        },
    );
    steps.push(
        Step {
            display_at_count: 0,
            instruction: "Start timer and swirl your AeroPress around for 15 seconds.",
            next_instruction: "",
            on_click: CompletionAction::StartTimer,
        },
    );
    steps.push(
        Step {
            display_at_count: 15,
            instruction: "Fill up with the remaining amount of water.",
            next_instruction: "Wait until 60 seconds, then put the cap on.",
            on_click: CompletionAction::Advance,
        },
    );
    steps.push(
        Step {
            display_at_count: 60,
            instruction: "Put the cap on",
            next_instruction: "Wait until 80 seconds, then invert.",
            on_click: CompletionAction::Advance,
        },
    );
    steps.push(
        Step {
            display_at_count: 80,
            instruction: "Invert the areopress.",
            next_instruction: "Wait until 90 seconds and start pluging.",
            on_click: CompletionAction::Advance,
        },
    );
    steps.push(
        Step {
            display_at_count: 90,
            instruction: "Start plunging.",
            next_instruction: "Aim to finish within 15 seconds.",
            on_click: CompletionAction::Advance,
        },
    );
    steps.push(
        Step {
            display_at_count: 105,
            instruction: "Done! Enjoy your coffee.",
            next_instruction: "",
            on_click: CompletionAction::Finish,
        },
    );
    proof {
        assert(views_of(steps@) =~= brewing_procedure());
        lemma_brewing_procedure_is_procedure();
    }
    StepTable::from_procedure(steps)
}

} // verus!
