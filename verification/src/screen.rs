//! What the user interface puts on the screen for a snapshot: which buttons it
//! offers and whether it shows the count.

use vstd::prelude::*;
use crate::model::Snapshot;
use crate::msg::Msg;
use crate::session::SnapshotView;

verus! {

/// The choices that the user interface makes for a snapshot.
#[derive(Clone, Copy, Debug, PartialEq, Eq)]
pub enum Screen {
    /// The session has not begun: nothing but the button that sends `ToggleStart`.
    Begin,
    /// The session has begun: the texts of the current step, and what goes with them.
    Instruction {
        /// The intent of the button that completes the step, if the step has one.
        step_button: Option<Msg>,
        /// Whether the button that sends `Restart` is offered.
        restart_button: bool,
        /// The count of elapsed seconds, shown while a clock is running.
        timer: Option<u32>,
    },
}

/// A screen as contracts see it.
pub enum ScreenView {
    Begin,
    Instruction { step_button: Option<Msg>, restart_button: bool, timer: Option<nat> },
}

impl View for Screen {
    type V = ScreenView;

    open spec fn view(&self) -> ScreenView {
        match *self {
            Screen::Begin => ScreenView::Begin,
            Screen::Instruction { step_button, restart_button, timer } => ScreenView::Instruction {
                step_button,
                restart_button,
                timer: match timer {
                    Some(count) => Some(count as nat),
                    None => None,
                },
            },
        }
    }
}

impl ScreenView {
    /// The screen has a button that sends `msg`.
    pub open spec fn offers(self, msg: Msg) -> bool {
        match self {
            ScreenView::Begin => msg == Msg::ToggleStart,
            ScreenView::Instruction { step_button, restart_button, .. } => {
                ||| step_button == Some(msg)
                ||| restart_button && msg == Msg::Restart
            },
        }
    }
}

impl SnapshotView {
    /// Before the session has begun only its beginning is offered. Afterwards the
    /// current step decides on its button, a restart is offered once the last step
    /// is reached and no clock is running, and the count is shown while one is.
    pub open spec fn screen(self) -> ScreenView {
        if !self.has_started {
            ScreenView::Begin
        } else {
            ScreenView::Instruction {
                step_button: self.current_step.on_click.button_spec(),
                restart_button: !self.is_timer_running && self.is_finished,
                timer: if self.is_timer_running {
                    Some(self.elapsed_seconds)
                } else {
                    None
                },
            }
        }
    }
}

impl Snapshot {
    /// What the user interface puts on the screen for this snapshot.
    pub fn screen(&self) -> (screen: Screen)
        ensures
            screen@ == self@.screen(),
    {
        if !self.has_started {
            Screen::Begin
        } else {
            Screen::Instruction {
                step_button: self.current_step.on_click.button(),
                restart_button: !self.is_timer_running && self.is_finished,
                timer: if self.is_timer_running {
                    Some(self.elapsed_seconds)
                } else {
                    None
                },
            }
        }
    }
}

} // verus!
