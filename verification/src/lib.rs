//! Lifecycle control for one supervised helper process that publishes a
//! session URL: the session state, its transitions, the idle reaper's
//! decisions and the command and response encodings of the control channel.
//!
//! The library decides; it never spawns, kills, sleeps or reads a channel.
//! Every transition takes the current time and the outcome of outside work as
//! plain values and answers with the next state and the work to perform.

pub mod clock;
pub mod config;
pub mod dispatch;
pub mod laws;
pub mod protocol;
pub mod reaper;
pub mod session;
pub mod trace;
