//! Verified core of a concolic fuzzing setup: decoding of the concolic trace
//! that the symbolic runtime writes into shared memory, the snapshot-based
//! concolic execution state machine, the command lines used to drive SymQEMU
//! and SymCC targets, and fork-server status handling.

pub mod trace;
pub mod observer;
pub mod symqemu;
pub mod concolic_snapshot;
pub mod snapshot_executor;
pub mod command;
pub mod symqemu_build;
pub mod fuzz_mode;
pub mod forkserver;
