//! Core logic of a minimal desktop application shell: the one command the
//! front-end can invoke, and the decisions of the one-time startup sequence.
//!
//! Everything platform- or framework-specific (the window handle, the event
//! loop, the compositor) stays outside; this crate holds the parts that can be
//! stated and proved: what the greeting command returns, which styling steps a
//! platform gets, and when startup may declare itself ready.

pub mod greeting;
pub mod startup;
