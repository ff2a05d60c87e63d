//! The intents that drive the timer, and what a step asks for when it is completed.

use vstd::prelude::*;

verus! {

/// An intent delivered to the controller: five come from the user, `Tick` from the clock.
#[derive(Clone, Copy, Debug, PartialEq, Eq, Structural)]
pub enum Msg {
    /// Start a clock, unless one is running already.
    StartTimer,
    /// One interval of the running clock has passed.
    Tick,
    /// Stop the clock and zero the count of elapsed seconds.
    CancelTimer,
    /// Move on to the following step; the last step stays where it is.
    IncrementStep,
    /// Begin the session. Delivered again once begun, it changes nothing.
    ToggleStart,
    /// Stop the clock and put the session back to its first state.
    Restart,
}

/// What the controller is asked to do when a step is completed.
#[derive(Clone, Copy, Debug, PartialEq, Eq, Structural)]
pub enum CompletionAction {
    /// Go on to the following step.
    Advance,
    /// Start the clock; the following steps come with time.
    StartTimer,
    /// Nothing follows: the step ends the procedure.
    Finish,
}

/// What the surrounding program has to do with the periodic clock after an intent
/// was handled. The controller keeps no clock of its own: it says when one is to be
/// started and when the running one is to be cancelled.
#[derive(Clone, Copy, Debug, PartialEq, Eq, Structural)]
pub enum ClockCommand {
    /// Leave the clock as it is, running or not.
    Keep,
    /// Start the clock: none is running.
    Start,
    /// Cancel the running clock; no tick of it may be delivered afterwards.
    Cancel,
}

impl CompletionAction {
    /// The intent sent by the button that a step with this action shows, if it shows one.
    pub open spec fn button_spec(self) -> Option<Msg> {
        match self {
            CompletionAction::Advance => Some(Msg::IncrementStep),
            CompletionAction::StartTimer => Some(Msg::StartTimer),
            CompletionAction::Finish => None,
        }
    }

    /// The intent sent by the button that a step with this action shows: a step that
    /// advances offers `IncrementStep`, one that starts the clock offers `StartTimer`,
    /// and the final step offers no button.
    pub fn button(self) -> (msg: Option<Msg>)
        ensures
            msg == self.button_spec(),
    {
        match self {
            CompletionAction::Advance => Some(Msg::IncrementStep),
            CompletionAction::StartTimer => Some(Msg::StartTimer),
            CompletionAction::Finish => None,
        }
    }
}

} // verus!
