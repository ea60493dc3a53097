//! Verified core of a native service supervisor.
//!
//! The library decides and the program around it acts: every module here is
//! a set of rules over plain values, with a contract that Verus proves.
//!
//! - `config`, `store`: a service's launch configuration and the record
//!   under which the config store keeps it.
//! - `supervisor`, `host`: the state machine that keeps one child process
//!   alive, with its bounded retries, and the host that owns it.
//! - `control`: the control bridge between the platform's requests and the
//!   stop flag, and the status reports on the way.
//! - `run`: the choice between the service mode and the debug mode.
//! - `manager`: the steps of each operation on the platform's service
//!   registry.
//! - `cli`: the command line as a value, and what each command asks for.
//! - `wide`: the platform's NUL-terminated UTF-16 strings.

pub mod cli;
pub mod config;
pub mod control;
pub mod host;
pub mod manager;
pub mod run;
pub mod store;
pub mod supervisor;
pub mod wide;
