//! State interception and forking execution core for Starknet contract testing.
//!
//! The crate holds the run state of one test session (a layered state cache, the
//! registry of active cheats, snapshots of both), the decisions taken around an
//! execution engine when a class is declared, a contract deployed or an entry point
//! called, the gas accounting over the engine's raw counters, the selection and
//! merging of compiled contract artifacts, and the closed taxonomy of command errors.

pub mod felt;
pub mod text;
pub mod assoc;
pub mod paths;
pub mod metadata;
pub mod targets;
pub mod artifacts;
pub mod contracts;
pub mod errors;
pub mod resources;
pub mod fork;
pub mod state;
pub mod cheats;
pub mod interception;
pub mod snapshot;
pub mod hashing;
pub mod declare;
pub mod dispatcher;
