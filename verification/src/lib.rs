//! A staged brewing timer: a fixed table of instructional steps, and the controller that
//! walks through it as the user acts and as the seconds of a periodic clock go by.
//!
//! The controller owns no clock. Each intent it handles yields a [`ClockCommand`] that
//! tells the surrounding program whether to start or to cancel the one periodic clock,
//! and that program hands every tick of the clock back as [`Msg::Tick`].

pub mod instructions;
pub mod laws;
pub mod model;
pub mod msg;
pub mod screen;
pub mod session;
pub mod state;
pub mod step;

pub use instructions::{instructions, TIMER_SPEED};
pub use model::{Model, Snapshot};
pub use msg::{ClockCommand, CompletionAction, Msg};
pub use screen::{Screen, ScreenView};
pub use session::{Session, SnapshotView};
pub use state::State;
pub use step::{Step, StepTable, StepView};
