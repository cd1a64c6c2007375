//! The decisions of a language-model server for Ascend accelerators.
//!
//! Two things happen outside this crate: calls into the accelerator's runtime
//! libraries, and the files, environment variables and sockets of the server
//! process. What is called, with which arguments, in which order and what
//! becomes of each answer is decided here, by functions on plain values.
//!
//! - [`ops`] holds the operators. Each builds a [`launch::Launch`], the state
//!   machine of one two-stage operator call.
//! - [`stream`], [`tensor`] and [`error`] hold the handles and status codes
//!   that those calls exchange.
//! - [`startup`] takes the server from its command line to serving.

pub mod error;
pub mod launch;
pub mod launch_laws;
pub mod ops;
pub mod startup;
pub mod stream;
pub mod tensor;
pub mod text;
