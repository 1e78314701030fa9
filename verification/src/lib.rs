//! Bounded-concurrency dispatch for an HTTP load generator.
//!
//! A load run issues a fixed number of identical requests, keeps no more than
//! a fixed number of them in flight, and reports how many succeeded and how
//! many failed. This crate holds the decisions of such a run as a state
//! machine over plain values; the network, the scheduler and the clock belong
//! to the driver that uses it.
//!
//! - [`gate`]: the admission gate, a counting semaphore with a fixed ceiling.
//! - [`outcome`]: the classification of a request's result, and the counter
//!   of successes and failures.
//! - [`dispatch`]: the dispatcher, which lets requests through the admission
//!   gate in issue order, takes their results, and tells the driver what to
//!   do next; the drain monitor is its last phase.
//! - [`history`]: runs as sequences of steps, and the proofs of what holds in
//!   every state of every run.
//! - [`replay`]: a whole run played in one thread from a list of results.
//! - [`config`]: the configuration of a run and the URL it is aimed at.
//! - [`report`]: the progress lines and the final report.
//! - [`text`]: decimal notation.

pub mod config;
pub mod dispatch;
pub mod gate;
pub mod history;
pub mod outcome;
pub mod replay;
pub mod report;
pub mod text;
