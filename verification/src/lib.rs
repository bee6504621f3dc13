//! Core of a command-line parallel job runner.
//!
//! One command template holding `{}` placeholder tokens is executed once per
//! argument string, a bounded number of instances at a time.  This crate holds
//! the verified dispatch engine: placeholder substitution, argument-record
//! splitting, the interactive gate, worker-pool sizing, job and result
//! construction, outcome aggregation, and a model of the whole pipeline with
//! its no-loss / no-duplication guarantees.  Thread spawning, channels, the
//! command-execution backend and all console work live outside, in a thin
//! unverified shell that calls into this crate with plain values.

pub mod collector;
pub mod engine;
pub mod gate;
pub mod job;
pub mod pool;
pub mod source;
pub mod template;
pub mod verbosity;
