//! Runtime-reloadable logging control.
//!
//! This library verifies the core of a service whose log level and log
//! destination can be changed at runtime: a severity filter around an inner
//! logger, a reloadable logger cell with a weak reconfiguration handle and
//! fail-safe poisoning semantics, the level and target vocabulary of the
//! log control protocol, and the controller that translates protocol values,
//! drives a logger factory and swaps the new configuration in.

pub mod control;
pub mod controller;
pub mod filter;
pub mod logger;
pub mod record;
pub mod reload;
pub mod severity;
pub mod trace;
