//! What follows a probe: the replacement of the process image, or one of the
//! named ways to end with a fixed exit status.

use vstd::prelude::*;
use crate::readiness::{ProbeError, ReadinessOutcome};

verus! {

/// Every way the guard ends short of becoming the command.
#[derive(Clone, Copy, Debug, PartialEq, Eq, Structural)]
pub enum ExitReason {
    /// No command was given.
    Usage,
    /// The scratch pipe could not be created.
    ScratchPipe,
    /// The duplication ran out of memory.
    Exhausted,
    /// Standard input is neither a pipe nor seekable.
    Undeterminable,
    /// Reading from a seekable standard input failed.
    Read,
    /// The read position of standard input could not be restored.
    Restore,
    /// Standard input is at its end.
    Empty,
    /// The command could not be executed.
    Exec,
}

/// What to do once the probe is done.
#[derive(Clone, Copy, Debug, PartialEq, Eq, Structural)]
pub enum Disposition {
    /// Replace the process image with the command.
    Replace,
    /// End the process.
    Exit(ExitReason),
}

impl ExitReason {
    /// The exit status: 2 for a missing command, 3 for an input at its end,
    /// 1 for every failure.
    pub open spec fn exit_status_spec(self) -> i32 {
        match self {
            ExitReason::Usage => 2,
            ExitReason::Empty => 3,
            _ => 1,
        }
    }

    /// The fixed part of the line written to standard error, if any is
    /// written. An input at its end is no failure and is not reported.
    pub open spec fn diagnostic_spec(self) -> Option<Seq<char>> {
        match self {
            ExitReason::Usage => Some(
                "saw no arguments, at least one is required (use `true(1)`?)"@,
            ),
            ExitReason::ScratchPipe => Some("could not create pipe with `pipe2(2)`"@),
            ExitReason::Exhausted => Some("`tee(2)` failed"@),
            ExitReason::Undeterminable => Some("stdin not a pipe and not seekable"@),
            ExitReason::Read => Some("could not read stdin"@),
            ExitReason::Restore => Some("could not lseek"@),
            ExitReason::Empty => None,
            ExitReason::Exec => Some("`execv(3)` failed"@),
        }
    }

    /// The status to exit with.
    pub fn exit_status(&self) -> (status: i32)
        ensures
            status == self.exit_status_spec(),
    {
        match self {
            ExitReason::Usage => 2,
            ExitReason::Empty => 3,
            _ => 1,
        }
    }

    /// The fixed part of the line to write to standard error, or `None` where
    /// nothing is written.
    pub fn diagnostic(&self) -> (text: Option<&'static str>)
        ensures
            text is Some <==> self.diagnostic_spec() is Some,
            text matches Some(t) ==> self.diagnostic_spec() == Some(t@),
    {
        match self {
            ExitReason::Usage => Some("saw no arguments, at least one is required (use `true(1)`?)"),
            ExitReason::ScratchPipe => Some("could not create pipe with `pipe2(2)`"),
            ExitReason::Exhausted => Some("`tee(2)` failed"),
            ExitReason::Undeterminable => Some("stdin not a pipe and not seekable"),
            ExitReason::Read => Some("could not read stdin"),
            ExitReason::Restore => Some("could not lseek"),
            ExitReason::Empty => None,
            ExitReason::Exec => Some("`execv(3)` failed"),
        }
    }
}

/// The reason that reports `error`.
pub open spec fn reason_of(error: ProbeError) -> ExitReason {
    match error {
        ProbeError::ScratchPipe => ExitReason::ScratchPipe,
        ProbeError::Exhausted => ExitReason::Exhausted,
        ProbeError::Read => ExitReason::Read,
        ProbeError::Restore => ExitReason::Restore,
    }
}

/// Only a ready input leads to the command. Every other result ends the
/// process, each for its own reason.
pub open spec fn dispose_spec(result: Result<ReadinessOutcome, ProbeError>) -> Disposition {
    match result {
        Ok(ReadinessOutcome::Ready) => Disposition::Replace,
        Ok(ReadinessOutcome::Empty) => Disposition::Exit(ExitReason::Empty),
        Ok(ReadinessOutcome::Undeterminable) => Disposition::Exit(ExitReason::Undeterminable),
        Err(error) => Disposition::Exit(reason_of(error)),
    }
}

/// Decides what follows the probe.
pub fn dispose(result: Result<ReadinessOutcome, ProbeError>) -> (disposition: Disposition)
    ensures
        disposition == dispose_spec(result),
{
    match result {
        Ok(ReadinessOutcome::Ready) => Disposition::Replace,
        Ok(ReadinessOutcome::Empty) => Disposition::Exit(ExitReason::Empty),
        Ok(ReadinessOutcome::Undeterminable) => Disposition::Exit(ExitReason::Undeterminable),
        Err(ProbeError::ScratchPipe) => Disposition::Exit(ExitReason::ScratchPipe),
        Err(ProbeError::Exhausted) => Disposition::Exit(ExitReason::Exhausted),
        Err(ProbeError::Read) => Disposition::Exit(ExitReason::Read),
        Err(ProbeError::Restore) => Disposition::Exit(ExitReason::Restore),
    }
}

} // verus!
