//! Feedback control with proportional, integral and derivative terms, generic
//! over the numeric type of the loop.
//!
//! [`PID`] is the controller a host calls once per sampling tick: it clamps
//! its integrator and its output, can take the proportional response from the
//! measurement instead of the error, can hold calls back until the sample
//! period has passed, and can be re-tuned, bounded and reversed while it
//! runs. [`P`] and [`PD`] are the terms it is built from.
//!
//! Contracts speak of the arithmetic of `T` through the specifications that
//! `vstd` attaches to the operator traits, so they say something of every type
//! whose operators obey those specifications. What holds of a controller
//! whatever the type is in [`laws`]; what needs arithmetic is shown on `i64`
//! in [`integers`].

pub mod controller;
pub mod integers;
pub mod laws;
pub mod numeric;
pub mod terms;

pub use controller::{ActingDirection, Evaluation, ProportionalMode, State, Step, PID};
pub use numeric::{clamp, Constants, Scalar};
pub use terms::{error, P, PD};
