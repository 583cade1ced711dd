//! A supervised periodic probe runner.
//!
//! The library holds the decision logic of a monitoring daemon: it validates
//! the runner configuration, tokenizes the probe command, classifies how a
//! probe run ended, decides whether a watchdog must kill an overrunning
//! probe, computes the end-of-cycle sleep that keeps a fixed cadence, and
//! formats the per-cycle report lines.  Launching the probe process, the
//! watchdog thread and all clock and signal work live in the embedding
//! application, which feeds plain values into these functions and acts on
//! what they return.

pub mod cadence;
pub mod command;
pub mod config;
pub mod digits;
pub mod outcome;
pub mod report;
pub mod watchdog;
