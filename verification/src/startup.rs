//! From the command line to a running server.
//!
//! [`plan`] is the state machine of the start-up: which action is due, and what
//! its answer leads to. [`laws`] and [`duties`] say what holds of a whole
//! start-up. The other modules hold the single decisions.

pub mod choices;
pub mod duties;
pub mod failure;
pub mod laws;
pub mod options;
pub mod parallel;
pub mod plan;
