//! The decisions of a kernel's earliest code: which phase the processor is in
//! between the loader's jump and one of the two loops that never end, and what
//! each turn of such a loop executes.
//!
//! The two entry points themselves never return, so they live outside this
//! crate. Each of them starts from a phase given here ([`phase::Phase::at_entry`],
//! [`phase::Phase::at_panic`]), executes the instruction that the phase asks for,
//! and takes the next phase from [`phase::Phase::step`]. What holds of every
//! such execution is stated and proved in [`trace`].

pub mod phase;
pub mod trace;
