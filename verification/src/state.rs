//! The part of a session that the intents count and move.

use vstd::prelude::*;

verus! {

/// The progress of a session: how many seconds were counted, which step is the
/// current one, and whether the session has begun.
#[derive(Clone, Copy, Debug, PartialEq, Eq, Structural)]
pub struct State {
    /// The count of elapsed seconds.
    pub count: u32,
    /// The index of the current step.
    pub current_step: usize,
    /// Whether the session has begun.
    pub has_started: bool,
}

impl State {
    /// The state of a session that was just created: nothing counted, at the first
    /// step, not begun.
    pub fn new() -> (state: State)
        ensures
            state == (State { count: 0, current_step: 0, has_started: false }),
    {
        State { count: 0, current_step: 0, has_started: false }
    }
}

} // verus!
