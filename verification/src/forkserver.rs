//! The fork server's process protocol: the server stops itself after every
//! execution and is continued with a signal for the next one.

use vstd::prelude::*;

verus! {

/// The wait status reports a stopped process.
pub open spec fn status_stopped(status: i32) -> bool {
    (status & 0xff) == 0x7f
}

/// The wait status reports a process that exited normally.
pub open spec fn status_exited(status: i32) -> bool {
    (status & 0x7f) == 0
}

/// The wait status reports a process terminated by a signal.
pub open spec fn status_signaled(status: i32) -> bool {
    ((status & 0x7f) + 1) as i8 >= 2
}

/// Whether a wait status reports a stopped child: calls `libc::WIFSTOPPED`,
/// which the libc crate defines as `(status & 0xff) == 0x7f`.
#[verifier::external_body]
fn wifstopped(status: i32) -> (r: bool)
    ensures
        r == status_stopped(status),
{
    libc::WIFSTOPPED(status)
}

/// Whether a wait status reports a normal exit: calls `libc::WIFEXITED`,
/// which the libc crate defines as `(status & 0x7f) == 0`.
#[verifier::external_body]
fn wifexited(status: i32) -> (r: bool)
    ensures
        r == status_exited(status),
{
    libc::WIFEXITED(status)
}

/// Whether a wait status reports termination by a signal: calls
/// `libc::WIFSIGNALED`, which the libc crate defines as
/// `((status & 0x7f) + 1) as i8 >= 2`.
#[verifier::external_body]
fn wifsignaled(status: i32) -> (r: bool)
    ensures
        r == status_signaled(status),
{
    libc::WIFSIGNALED(status)
}

/// Fork-server failures.
#[derive(Clone, Copy, Debug, PartialEq, Eq, Structural)]
pub enum ForkServerError {
    /// Waiting for the fork server failed.
    WaitFailed,
    /// The fork server exited or was killed.
    ExitedUnexpectedly,
    /// The wait status reports neither a stop nor a termination.
    UnexpectedStatus,
    /// Continuing the fork server failed.
    ContinueFailed,
}

/// The outcome of waiting for the fork server to stop, given the wait
/// call's return value and the status it reported.
pub open spec fn wait_result(ret: i32, status: i32) -> Result<(), ForkServerError> {
    if ret < 0 {
        Err(ForkServerError::WaitFailed)
    } else if status_stopped(status) {
        Ok(())
    } else if status_exited(status) || status_signaled(status) {
        Err(ForkServerError::ExitedUnexpectedly)
    } else {
        Err(ForkServerError::UnexpectedStatus)
    }
}

/// Waiting succeeds exactly when the wait call succeeded and reports a
/// stopped fork server; a failed call is always reported as such; a
/// terminated server is never taken for a ready one.
pub proof fn law_wait_result(ret: i32, status: i32)
    ensures
        wait_result(ret, status) is Ok <==> (ret >= 0 && status_stopped(status)),
        ret < 0 ==> wait_result(ret, status) == Err::<(), ForkServerError>(ForkServerError::WaitFailed),
        ret >= 0 && !status_stopped(status) && (status_exited(status) || status_signaled(status))
            ==> wait_result(ret, status) == Err::<(), ForkServerError>(ForkServerError::ExitedUnexpectedly),
        ret >= 0 && !status_stopped(status) && !status_exited(status) && !status_signaled(status)
            ==> wait_result(ret, status) == Err::<(), ForkServerError>(ForkServerError::UnexpectedStatus),
{
}

/// Interprets the result of waiting for the fork server (with stopped
/// children reported): a failed wait is an error, a stop means the server
/// is ready, an exit or a kill means it is gone.
pub fn wait_outcome(ret: i32, status: i32) -> (r: Result<(), ForkServerError>)
    ensures
        r == wait_result(ret, status),
{
    if ret < 0 {
        Err(ForkServerError::WaitFailed)
    } else if wifstopped(status) {
        Ok(())
    } else if wifexited(status) || wifsignaled(status) {
        Err(ForkServerError::ExitedUnexpectedly)
    } else {
        Err(ForkServerError::UnexpectedStatus)
    }
}

/// Interprets the result of sending the continue signal to the fork server.
pub fn continue_outcome(ret: i32) -> (r: Result<(), ForkServerError>)
    ensures
        r == (if ret < 0 { Err(ForkServerError::ContinueFailed) } else { Ok(()) }),
{
    if ret < 0 {
        Err(ForkServerError::ContinueFailed)
    } else {
        Ok(())
    }
}

} // verus!
