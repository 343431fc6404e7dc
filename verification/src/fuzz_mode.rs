//! Which kind of fuzzing a fuzzer node performs, from its command-line
//! options.

use vstd::prelude::*;

verus! {

/// The TCP port on which the broker accepts the initial handshake.
pub const BROKER_PORT: u16 = 1337;

/// The fuzzer's command-line options.
#[derive(Clone, Copy, Debug, PartialEq, Eq, Structural)]
pub struct Opt {
    /// Do concolic tracing and solving instead of traditional fuzzing.
    pub concolic: bool,
    /// Use SymCC instead of SymQEMU for concolic execution.
    pub use_symcc: bool,
    /// Use snapshot-based in-process concolic execution.
    pub use_snapshot: bool,
    /// Use the SymQEMU fork server.
    pub use_forkserver: bool,
}

/// The kind of fuzzing a node performs.
#[derive(Clone, Copy, Debug, PartialEq, Eq, Structural)]
pub enum FuzzMode {
    /// Coverage-guided fuzzing with comparison tracing and havoc mutations.
    Regular,
    /// Concolic tracing through the SymQEMU fork server.
    ConcolicForkServer,
    /// Concolic tracing by restoring an in-process snapshot.
    ConcolicSnapshot,
    /// Concolic tracing of a SymCC-instrumented target.
    ConcolicSymCC,
    /// Concolic tracing under SymQEMU, one process per input.
    ConcolicSymQEMU,
}

/// Why no fuzzing mode could be chosen.
#[derive(Clone, Copy, Debug, PartialEq, Eq, Structural)]
pub enum ModeError {
    /// Snapshot mode was requested from a build without snapshot support.
    SnapshotUnsupported,
}

/// The mode chosen for `opt` when snapshot support is built in or not.
pub open spec fn mode_for(opt: Opt, snapshot_supported: bool) -> Result<FuzzMode, ModeError> {
    if !opt.concolic {
        Ok(FuzzMode::Regular)
    } else if opt.use_forkserver {
        Ok(FuzzMode::ConcolicForkServer)
    } else if opt.use_snapshot {
        if snapshot_supported {
            Ok(FuzzMode::ConcolicSnapshot)
        } else {
            Err(ModeError::SnapshotUnsupported)
        }
    } else if opt.use_symcc {
        Ok(FuzzMode::ConcolicSymCC)
    } else {
        Ok(FuzzMode::ConcolicSymQEMU)
    }
}

/// The mode choice: without `concolic` every node fuzzes traditionally; the
/// fork server wins over every other concolic option; snapshot support
/// matters only when snapshot mode is asked for, and then decides between
/// snapshot mode and the error; `--concolic` alone selects SymQEMU.
pub proof fn law_mode_choice(opt: Opt, snapshot_supported: bool)
    ensures
        !opt.concolic ==> mode_for(opt, snapshot_supported) == Ok::<FuzzMode, ModeError>(FuzzMode::Regular),
        opt.concolic && opt.use_forkserver ==> mode_for(opt, snapshot_supported)
            == Ok::<FuzzMode, ModeError>(FuzzMode::ConcolicForkServer),
        !opt.use_snapshot ==> mode_for(opt, true) == mode_for(opt, false),
        mode_for(opt, snapshot_supported) == Ok::<FuzzMode, ModeError>(FuzzMode::ConcolicSnapshot)
            ==> opt.concolic && opt.use_snapshot && !opt.use_forkserver && snapshot_supported,
        mode_for(opt, snapshot_supported) is Err <==> (opt.concolic && !opt.use_forkserver && opt.use_snapshot
            && !snapshot_supported),
        opt.concolic && !opt.use_forkserver && opt.use_snapshot && snapshot_supported ==> mode_for(opt, snapshot_supported)
            == Ok::<FuzzMode, ModeError>(FuzzMode::ConcolicSnapshot),
        opt.concolic && !opt.use_forkserver && !opt.use_snapshot && opt.use_symcc ==> mode_for(opt, snapshot_supported)
            == Ok::<FuzzMode, ModeError>(FuzzMode::ConcolicSymCC),
        opt.concolic && !opt.use_forkserver && !opt.use_snapshot && !opt.use_symcc ==> mode_for(opt, snapshot_supported)
            == Ok::<FuzzMode, ModeError>(FuzzMode::ConcolicSymQEMU),
{
}

/// Chooses the fuzzing mode: without `concolic` the node fuzzes
/// traditionally; otherwise the fork server takes precedence over the
/// snapshot mode, which takes precedence over SymCC, and SymQEMU is the
/// default.
pub fn select_fuzz_mode(opt: &Opt, snapshot_supported: bool) -> (mode: Result<FuzzMode, ModeError>)
    ensures
        mode == mode_for(*opt, snapshot_supported),
{
    if !opt.concolic {
        Ok(FuzzMode::Regular)
    } else if opt.use_forkserver {
        Ok(FuzzMode::ConcolicForkServer)
    } else if opt.use_snapshot {
        if snapshot_supported {
            Ok(FuzzMode::ConcolicSnapshot)
        } else {
            Err(ModeError::SnapshotUnsupported)
        }
    } else if opt.use_symcc {
        Ok(FuzzMode::ConcolicSymCC)
    } else {
        Ok(FuzzMode::ConcolicSymQEMU)
    }
}

/// How setting up the restarting event manager failed.
#[derive(Clone, Copy, Debug, PartialEq, Eq, Structural)]
pub enum SetupFailure {
    /// The fuzzer is shutting down.
    ShuttingDown,
    /// Any other failure.
    Other,
}

/// What a node does when its setup failed.
#[derive(Clone, Copy, Debug, PartialEq, Eq, Structural)]
pub enum SetupDecision {
    /// Stop fuzzing and report success.
    Finish,
    /// Abort with the setup error.
    Abort,
}

/// A node whose setup failed because the fuzzer is shutting down finishes
/// successfully; any other setup failure aborts it.
pub fn setup_failure_decision(failure: SetupFailure) -> (decision: SetupDecision)
    ensures
        decision == (match failure {
            SetupFailure::ShuttingDown => SetupDecision::Finish,
            SetupFailure::Other => SetupDecision::Abort,
        }),
{
    match failure {
        SetupFailure::ShuttingDown => SetupDecision::Finish,
        SetupFailure::Other => SetupDecision::Abort,
    }
}

} // verus!
