//! A guard that launches a command only when its standard input has data.
//!
//! The library holds every decision of the guard and none of its system
//! calls. [`probe::Probe`] is a state machine: it names the next system call
//! as a [`probe::Request`], takes what the call returned as a
//! [`probe::Reply`], and ends in a [`readiness::ReadinessOutcome`] or a
//! [`readiness::ProbeError`]. From that result [`exit::dispose`] decides the
//! one thing left to do: replace the process image, or exit with a fixed
//! status. [`command::CommandLine`] is the validated argument vector of the
//! command to launch.
//!
//! [`model`] describes an input stream and what each request does to it, and
//! [`laws`] proves against that description that the probe leaves the stream
//! as it found it, reports the right outcome, and leaks no descriptor.

pub mod command;
pub mod exit;
pub mod laws;
pub mod model;
pub mod probe;
pub mod readiness;
