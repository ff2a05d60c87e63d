//! The session as contracts see it: a mathematical state and the transition that each
//! intent makes on it.

use vstd::prelude::*;
use crate::msg::{ClockCommand, Msg};
use crate::step::{is_procedure, StepView};

verus! {

/// The state of one run through a procedure.
pub struct Session {
    /// The procedure; no intent changes it.
    pub steps: Seq<StepView>,
    /// The count of elapsed seconds.
    pub count: nat,
    /// The index of the current step.
    pub current_step: nat,
    /// Whether the session has begun.
    pub has_started: bool,
    /// Whether a clock is running for this session.
    pub clock_running: bool,
}

/// What the user interface is given to render.
pub struct SnapshotView {
    pub elapsed_seconds: nat,
    pub current_step: StepView,
    pub is_timer_running: bool,
    pub has_started: bool,
    pub is_finished: bool,
}

impl Session {
    /// The steps form a procedure and the current step is one of them.
    pub open spec fn well_formed(self) -> bool {
        &&& is_procedure(self.steps)
        &&& self.current_step < self.steps.len()
    }

    /// The session as it is created: at the first step, nothing counted, not begun,
    /// no clock.
    pub open spec fn fresh(steps: Seq<StepView>) -> Session {
        Session { steps, count: 0, current_step: 0, has_started: false, clock_running: false }
    }

    /// The index of the last step.
    pub open spec fn last_index(self) -> nat {
        (self.steps.len() - 1) as nat
    }

    /// The current step is the last one.
    pub open spec fn is_finished(self) -> bool {
        self.current_step == self.steps.len() - 1
    }

    /// The step after the current one, if there is one.
    pub open spec fn next_step(self) -> Option<StepView> {
        if self.current_step + 1 < self.steps.len() {
            Some(self.steps[self.current_step + 1int])
        } else {
            None
        }
    }

    /// `ToggleStart`: the session has begun, whether or not it had before.
    pub open spec fn begin(self) -> Session {
        Session { has_started: true, ..self }
    }

    /// `Restart`: the fresh session over the same steps.
    pub open spec fn restart(self) -> Session {
        Session::fresh(self.steps)
    }

    /// `IncrementStep`: one step further, but never past the last step.
    pub open spec fn advance_step(self) -> Session {
        Session {
            current_step: if self.current_step + 1 <= self.last_index() {
                self.current_step + 1
            } else {
                self.last_index()
            },
            ..self
        }
    }

    /// `StartTimer`: a clock is running, whether or not one was before.
    pub open spec fn start_timer(self) -> Session {
        Session { clock_running: true, ..self }
    }

    /// `CancelTimer`: no clock is running and nothing is counted.
    pub open spec fn cancel_timer(self) -> Session {
        Session { clock_running: false, count: 0, ..self }
    }

    /// The first part of a tick: the following step becomes the current one if its
    /// threshold is exactly the count.
    ///
    /// Only the following step is looked at, and only for equality. So of two steps
    /// with the same threshold the clock reaches the first alone, and a step whose
    /// threshold the count has passed is out of the clock's reach until the count
    /// starts anew: to such steps the session moves by `IncrementStep`.
    pub open spec fn look_ahead(self) -> Session {
        match self.next_step() {
            Some(next) if next.display_at_count == self.count => Session {
                current_step: self.current_step + 1,
                ..self
            },
            _ => self,
        }
    }

    /// `Tick`: look ahead; on the last step cancel the clock, which zeroes the count;
    /// then count one second.
    pub open spec fn tick(self) -> Session {
        let at = self.look_ahead();
        let settled = if at.is_finished() {
            at.cancel_timer()
        } else {
            at
        };
        Session { count: settled.count + 1, ..settled }
    }

    /// A counter of 32 bits has room for the second that the next tick counts.
    pub open spec fn has_room_for_tick(self) -> bool {
        self.tick().count <= u32::MAX
    }

    /// The session after `msg` was handled.
    pub open spec fn deliver(self, msg: Msg) -> Session {
        match msg {
            Msg::StartTimer => self.start_timer(),
            Msg::Tick => self.tick(),
            Msg::CancelTimer => self.cancel_timer(),
            Msg::IncrementStep => self.advance_step(),
            Msg::ToggleStart => self.begin(),
            Msg::Restart => self.restart(),
        }
    }

    /// What handling `msg` asks of the clock: to start it where none is running and
    /// one runs afterwards, to cancel it where one is running and none runs
    /// afterwards, and nothing else.
    pub open spec fn command(self, msg: Msg) -> ClockCommand {
        let after = self.deliver(msg);
        if !self.clock_running && after.clock_running {
            ClockCommand::Start
        } else if self.clock_running && !after.clock_running {
            ClockCommand::Cancel
        } else {
            ClockCommand::Keep
        }
    }

    /// The session after the intents of `msgs` were handled, first to last.
    pub open spec fn deliver_all(self, msgs: Seq<Msg>) -> Session
        decreases msgs.len(),
    {
        if msgs.len() == 0 {
            self
        } else {
            self.deliver_all(msgs.drop_last()).deliver(msgs.last())
        }
    }

    /// The commands that handling the intents of `msgs` gives, first to last.
    pub open spec fn commands(self, msgs: Seq<Msg>) -> Seq<ClockCommand>
        decreases msgs.len(),
    {
        if msgs.len() == 0 {
            Seq::empty()
        } else {
            self.commands(msgs.drop_last()).push(
                self.deliver_all(msgs.drop_last()).command(msgs.last()),
            )
        }
    }

    /// What the user interface is given to render.
    pub open spec fn snapshot(self) -> SnapshotView {
        SnapshotView {
            elapsed_seconds: self.count,
            current_step: self.steps[self.current_step as int],
            is_timer_running: self.clock_running,
            has_started: self.has_started,
            is_finished: self.is_finished(),
        }
    }
}

} // verus!
