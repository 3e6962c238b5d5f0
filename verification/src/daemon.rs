//! The wallet daemon that runs inside the application: how its failures are
//! reported, and how it is shut down.

use vstd::prelude::*;

verus! {

/// Why the daemon failed.
#[derive(Debug, PartialEq, Eq)]
pub enum DaemonError {
    /// The daemon could not be started; the text says why.
    Start(String),
    /// A command failed; the text is the daemon's own account of it.
    Unexpected(String),
}

/// The outcome of starting the daemon, with a failure reported as
/// `DaemonError::Start`.
pub open spec fn start_outcome_of<T>(outcome: Result<T, String>) -> Result<T, DaemonError> {
    match outcome {
        Ok(started) => Ok(started),
        Err(reason) => Err(DaemonError::Start(reason)),
    }
}

/// The outcome of a command, with a failure reported as
/// `DaemonError::Unexpected`.
pub open spec fn command_outcome_of<T>(outcome: Result<T, String>) -> Result<T, DaemonError> {
    match outcome {
        Ok(answer) => Ok(answer),
        Err(reason) => Err(DaemonError::Unexpected(reason)),
    }
}

/// Reports the outcome of starting the daemon: what was started comes back
/// as it is, a failure as a start failure with the daemon's reason.
pub fn start_outcome<T>(outcome: Result<T, String>) -> (reported: Result<T, DaemonError>)
    ensures
        reported == start_outcome_of(outcome),
{
    match outcome {
        Ok(started) => Ok(started),
        Err(reason) => Err(DaemonError::Start(reason)),
    }
}

/// Reports the outcome of a command: an answer comes back as it is, a
/// failure as an unexpected failure with the daemon's reason.
pub fn command_outcome<T>(outcome: Result<T, String>) -> (reported: Result<T, DaemonError>)
    ensures
        reported == command_outcome_of(outcome),
{
    match outcome {
        Ok(answer) => Ok(answer),
        Err(reason) => Err(DaemonError::Unexpected(reason)),
    }
}

/// A failed command is never reported as a failure to start, nor a failure
/// to start as a failed command.
pub proof fn failures_keep_their_kind<T>(outcome: Result<T, String>)
    ensures
        !(command_outcome_of(outcome) matches Err(DaemonError::Start(_))),
        !(start_outcome_of(outcome) matches Err(DaemonError::Unexpected(_))),
        command_outcome_of(outcome) is Ok <==> outcome is Ok,
        start_outcome_of(outcome) is Ok <==> outcome is Ok,
{
}

/// Milliseconds to wait between two looks at the daemon's shutdown flag.
pub const SHUTDOWN_POLL_MILLIS: u64 = 500;

/// What to do after a look at the daemon's shutdown flag.
#[derive(Debug, Clone, Copy, PartialEq, Eq, Structural)]
pub enum ShutdownStep {
    /// The daemon is still running: sleep for so many milliseconds, then look
    /// again.
    Wait(u64),
    /// The daemon has stopped.
    Done,
}

/// What follows a look at the shutdown flag.
pub open spec fn shutdown_step_of(complete: bool) -> ShutdownStep {
    if complete {
        ShutdownStep::Done
    } else {
        ShutdownStep::Wait(SHUTDOWN_POLL_MILLIS)
    }
}

/// Decides what follows a look at the shutdown flag, once the shutdown has
/// been asked for: nothing more when the daemon reports that it has stopped,
/// else one more pause of fixed length before the next look.
pub fn shutdown_step(complete: bool) -> (step: ShutdownStep)
    ensures
        step == shutdown_step_of(complete),
{
    if complete {
        ShutdownStep::Done
    } else {
        ShutdownStep::Wait(SHUTDOWN_POLL_MILLIS)
    }
}

} // verus!
