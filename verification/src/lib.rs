//! A fixed-timestep simulation loop.
//!
//! The loop decouples simulation time from real time: a host program calls
//! [`Loop::step`] from its own control flow, and the loop decides on each call
//! whether an update tick is due, advances its clocks, and hands its
//! [`State`] to the host's update and display callbacks.
//!
//! All quantities are integers. Real time is counted in nanoseconds on a
//! monotonic clock, the time between ticks in milliseconds, the timescale in
//! thousandths and the timestep in microseconds, so that every formula of
//! the loop is exact.

pub mod clock;
pub mod laws;
pub mod report;
pub mod simulation;
pub mod state;
pub mod time;

pub use crate::simulation::Loop;
pub use crate::state::State;
pub use crate::time::delta_time;
pub use crate::time::timestep;
