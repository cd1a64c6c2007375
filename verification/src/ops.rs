//! The operators of the accelerator.
//!
//! Each function takes an operator's arguments to the [`Launch`] that runs it.
//!
//! [`Launch`]: crate::launch::Launch

pub mod attention;
pub mod elementwise;
pub mod reduction;
