//! The instruction handlers: the protocol's state transitions.
//!
//! Each handler is specified by a pure transition function over the state
//! view; the executable handler returns exactly the transition's result and,
//! on rejection, leaves the state untouched.

pub mod governance;
pub mod treasury;
