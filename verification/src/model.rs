//! The controller: the session of one run and the intents that change it.

use vstd::prelude::*;
use crate::msg::{ClockCommand, Msg};
use crate::session::{Session, SnapshotView};
use crate::state::State;
use crate::step::{Step, StepTable};

verus! {

/// What the user interface is given to render after each intent.
#[derive(Clone, Copy, Debug, PartialEq, Eq)]
pub struct Snapshot {
    /// The count of elapsed seconds.
    pub elapsed_seconds: u32,
    /// The step to show.
    pub current_step: Step,
    /// Whether a clock is running.
    pub is_timer_running: bool,
    /// Whether the session has begun.
    pub has_started: bool,
    /// Whether the step to show is the last one.
    pub is_finished: bool,
}

impl View for Snapshot {
    type V = SnapshotView;

    open spec fn view(&self) -> SnapshotView {
        SnapshotView {
            elapsed_seconds: self.elapsed_seconds as nat,
            current_step: self.current_step@,
            is_timer_running: self.is_timer_running,
            has_started: self.has_started,
            is_finished: self.is_finished,
        }
    }
}

/// The timer controller. It holds the procedure and the session, and handles one
/// intent at a time. It starts and cancels no clock itself: what it returns tells the
/// caller to do so, and it records that a clock is running from the moment it asked
/// for one until the moment it asks for its cancellation.
pub struct Model {
    steps: StepTable,
    state: State,
    timer_running: bool,
}

impl View for Model {
    type V = Session;

    closed spec fn view(&self) -> Session {
        Session {
            steps: self.steps@,
            count: self.state.count as nat,
            current_step: self.state.current_step as nat,
            has_started: self.state.has_started,
            clock_running: self.timer_running,
        }
    }
}

impl Model {
    #[verifier::type_invariant]
    spec fn current_step_exists(self) -> bool {
        self.state.current_step < self.steps@.len()
    }

    /// A controller for `steps`, with a fresh session.
    pub fn new(steps: StepTable) -> (model: Model)
        ensures
            model@ == Session::fresh(steps@),
            model@.well_formed(),
    {
        proof {
            use_type_invariant(&steps);
        }
        Model { steps, state: State::new(), timer_running: false }
    }

    /// Handles `msg` and says what is to be done with the clock.
    ///
    /// A tick needs room in the counter for the second it counts, which
    /// `has_room_for_tick` tests.
    pub fn update(&mut self, msg: Msg) -> (command: ClockCommand)
        requires
            msg == Msg::Tick ==> old(self)@.has_room_for_tick(),
        ensures
            final(self)@ == old(self)@.deliver(msg),
            command == old(self)@.command(msg),
            final(self)@.well_formed(),
    {
        match msg {
            Msg::Restart => self.restart(),
            Msg::ToggleStart => {
                self.begin();
                ClockCommand::Keep
            },
            Msg::IncrementStep => {
                self.advance_step();
                ClockCommand::Keep
            },
            Msg::StartTimer => self.start_timer(),
            Msg::Tick => self.tick(),
            Msg::CancelTimer => self.cancel_timer(),
        }
    }

    /// Begins the session. Once begun, a session stays so until it is restarted.
    pub fn begin(&mut self)
        ensures
            final(self)@ == old(self)@.begin(),
            final(self)@.well_formed(),
    {
        proof {
            use_type_invariant(&*self);
            use_type_invariant(&self.steps);
        }
        self.state.has_started = true;
    }

    /// Cancels the clock if one is running and puts the session back to its first
    /// state.
    pub fn restart(&mut self) -> (command: ClockCommand)
        ensures
            final(self)@ == Session::fresh(old(self)@.steps),
            command == old(self)@.command(Msg::Restart),
            final(self)@.well_formed(),
    {
        proof {
            use_type_invariant(&*self);
            use_type_invariant(&self.steps);
        }
        let command = self.cancel_timer();
        self.state.has_started = false;
        self.state.current_step = 0;
        command
    }

    /// Moves to the following step. On the last step nothing changes.
    pub fn advance_step(&mut self)
        ensures
            final(self)@ == old(self)@.advance_step(),
            final(self)@.well_formed(),
    {
        proof {
            use_type_invariant(&*self);
            use_type_invariant(&self.steps);
        }
        if self.state.current_step < self.steps.len() - 1 {
            self.state.current_step = self.state.current_step + 1;
        }
    }

    /// Asks for a clock unless one is running: a second request in a row asks for
    /// nothing.
    pub fn start_timer(&mut self) -> (command: ClockCommand)
        ensures
            final(self)@ == old(self)@.start_timer(),
            command == old(self)@.command(Msg::StartTimer),
            final(self)@.well_formed(),
    {
        proof {
            use_type_invariant(&*self);
            use_type_invariant(&self.steps);
        }
        if self.timer_running {
            ClockCommand::Keep
        } else {
            self.timer_running = true;
            ClockCommand::Start
        }
    }

    /// Asks for the cancellation of the clock if one is running, and zeroes the
    /// count in either case.
    pub fn cancel_timer(&mut self) -> (command: ClockCommand)
        ensures
            final(self)@ == old(self)@.cancel_timer(),
            command == old(self)@.command(Msg::CancelTimer),
            final(self)@.well_formed(),
    {
        proof {
            use_type_invariant(&*self);
            use_type_invariant(&self.steps);
        }
        let command = if self.timer_running {
            ClockCommand::Cancel
        } else {
            ClockCommand::Keep
        };
        self.state.count = 0;
        self.timer_running = false;
        command
    }

    /// Handles one tick of the clock. The following step becomes the current one if
    /// its threshold is the count as it stood before this tick. On the last step the
    /// clock is cancelled and the count zeroed. Then the tick is counted.
    pub fn tick(&mut self) -> (command: ClockCommand)
        requires
            old(self)@.has_room_for_tick(),
        ensures
            final(self)@ == old(self)@.tick(),
            command == old(self)@.command(Msg::Tick),
            final(self)@.well_formed(),
    {
        proof {
            use_type_invariant(&*self);
            use_type_invariant(&self.steps);
        }
        let last: usize = self.steps.len() - 1;
        match self.steps.get(self.state.current_step + 1) {
            Some(next) => {
                if next.display_at_count == self.state.count {
                    self.state.current_step = self.state.current_step + 1;
                }
            },
            None => {},
        }
        let mut command = ClockCommand::Keep;
        if self.state.current_step == last {
            command = self.cancel_timer();
        }
        self.state.count = self.state.count + 1;
        command
    }

    /// Whether the counter has room for the next tick, that is, whether `tick` and
    /// `update` with `Msg::Tick` may be called now. There is always room for a tick
    /// that ends on the last step, since it starts the count anew.
    pub fn has_room_for_tick(&self) -> (room: bool)
        ensures
            room == self@.has_room_for_tick(),
    {
        proof {
            use_type_invariant(self);
            use_type_invariant(&self.steps);
        }
        let last: usize = self.steps.len() - 1;
        let ends_on_last_step = match self.steps.get(self.state.current_step + 1) {
            Some(next) => next.display_at_count == self.state.count && self.state.current_step + 1
                == last,
            None => true,
        };
        ends_on_last_step || self.state.count < u32::MAX
    }

    /// The progress of the session.
    pub fn state(&self) -> (state: State)
        ensures
            state.count == self@.count,
            state.current_step == self@.current_step,
            state.has_started == self@.has_started,
            self@.well_formed(),
    {
        proof {
            use_type_invariant(self);
            use_type_invariant(&self.steps);
        }
        self.state
    }

    /// The procedure that the session runs through.
    pub fn steps(&self) -> (steps: &StepTable)
        ensures
            steps@ == self@.steps,
    {
        &self.steps
    }

    /// Whether a clock is running for this session.
    pub fn is_timer_running(&self) -> (running: bool)
        ensures
            running == self@.clock_running,
    {
        self.timer_running
    }

    /// Whether the current step is the last one.
    pub fn is_finished(&self) -> (finished: bool)
        ensures
            finished == self@.is_finished(),
    {
        self.state.current_step == self.steps.len() - 1
    }

    /// What the user interface is given to render.
    pub fn snapshot(&self) -> (snapshot: Snapshot)
        ensures
            snapshot@ == self@.snapshot(),
            self@.well_formed(),
    {
        proof {
            use_type_invariant(self);
            use_type_invariant(&self.steps);
        }
        Snapshot {
            elapsed_seconds: self.state.count,
            current_step: self.steps.at(self.state.current_step),
            is_timer_running: self.timer_running,
            has_started: self.state.has_started,
            is_finished: self.is_finished(),
        }
    }
}

} // verus!
