//! The readiness probe as a state machine.
//!
//! The probe never touches a descriptor itself. It names the system call to
//! make next ([`Probe::request`]) and is told what the call returned
//! ([`Probe::step`]); whoever drives it makes the calls on standard input
//! and on the scratch pipe.
//!
//! Two strategies follow one another. The first duplicates up to
//! [`PROBE_LEN`] bytes of the input into a scratch pipe, which consumes
//! nothing. Where the input is no pipe and so cannot be duplicated from, the
//! second asks whether it can be repositioned, reads up to [`PROBE_LEN`]
//! bytes if so, and seeks back by as many bytes as it read.

use vstd::prelude::*;
use crate::readiness::{ProbeError, ReadinessOutcome};

verus! {

/// How many bytes the probe asks for. One is enough to tell data from the
/// end of the stream.
pub const PROBE_LEN: usize = 1;

/// Why a system call failed, as far as the probe tells failures apart.
#[derive(Clone, Copy, Debug, PartialEq, Eq, Structural)]
pub enum Fault {
    /// The descriptor is of the wrong kind for the call (`EINVAL`).
    WrongKind,
    /// The kernel is out of memory (`ENOMEM`).
    Exhausted,
    /// Anything else.
    Other,
}

/// A system call for the driver to make.
#[derive(Clone, Copy, Debug, PartialEq, Eq, Structural)]
pub enum Request {
    /// Create the scratch pipe, with both ends marked close-on-exec if
    /// `close_on_exec` is set.
    OpenPipe { close_on_exec: bool },
    /// Copy up to `len` bytes from standard input into the write end of the
    /// scratch pipe without removing them from standard input.
    Duplicate { len: usize },
    /// Move the read position of standard input by `offset` bytes from where
    /// it stands.
    Seek { offset: i64 },
    /// Read up to `len` bytes from standard input.
    Read { len: usize },
}

/// What a system call returned.
#[derive(Clone, Copy, Debug, PartialEq, Eq, Structural)]
pub enum Reply {
    /// The pipe exists.
    PipeOpened,
    /// So many bytes were duplicated or read.
    Transferred(usize),
    /// The read position was moved.
    Positioned,
    /// The call failed.
    Failed(Fault),
}

/// Where a probe stands: the call it waits for, or its result.
#[derive(Clone, Copy, Debug, PartialEq, Eq)]
pub enum Probe {
    /// Waiting for the scratch pipe.
    Opening,
    /// Waiting for the duplication into the scratch pipe.
    Duplicating,
    /// The input is no pipe. Waiting to learn whether it can be
    /// repositioned.
    Locating,
    /// The input can be repositioned. Waiting for the read.
    Reading,
    /// Bytes were read. Waiting for the seek by `offset` that puts them back.
    Restoring { offset: i64 },
    /// Done.
    Finished { result: Result<ReadinessOutcome, ProbeError> },
}

impl Probe {
    /// The state every probe starts in.
    pub open spec fn start() -> Probe {
        Probe::Opening
    }

    /// The call that this state waits for; `None` once the probe is done.
    pub open spec fn request_spec(self) -> Option<Request> {
        match self {
            Probe::Opening => Some(Request::OpenPipe { close_on_exec: true }),
            Probe::Duplicating => Some(Request::Duplicate { len: PROBE_LEN }),
            Probe::Locating => Some(Request::Seek { offset: 0 }),
            Probe::Reading => Some(Request::Read { len: PROBE_LEN }),
            Probe::Restoring { offset } => Some(Request::Seek { offset }),
            Probe::Finished { .. } => None,
        }
    }

    /// The result of the probe; `None` while a call is outstanding.
    pub open spec fn result_spec(self) -> Option<Result<ReadinessOutcome, ProbeError>> {
        match self {
            Probe::Finished { result } => Some(result),
            _ => None,
        }
    }

    /// The state that follows when the outstanding call returns `reply`;
    /// `None` where `reply` cannot be the return of that call.
    ///
    /// A count of zero is the end of the stream. A count above what was asked
    /// for answers no request. A duplication fails in two ways only: on a
    /// descriptor of the wrong kind, which sends the probe to its second
    /// strategy, and for want of memory, which ends it.
    pub open spec fn step_spec(self, reply: Reply) -> Option<Probe> {
        match (self, reply) {
            (Probe::Opening, Reply::PipeOpened) => Some(Probe::Duplicating),
            (Probe::Opening, Reply::Failed(_)) => Some(failed(ProbeError::ScratchPipe)),
            (Probe::Duplicating, Reply::Transferred(n)) => if n == 0 {
                Some(found(ReadinessOutcome::Empty))
            } else if n <= PROBE_LEN {
                Some(found(ReadinessOutcome::Ready))
            } else {
                None
            },
            (Probe::Duplicating, Reply::Failed(Fault::WrongKind)) => Some(Probe::Locating),
            (Probe::Duplicating, Reply::Failed(Fault::Exhausted)) => Some(
                failed(ProbeError::Exhausted),
            ),
            (Probe::Locating, Reply::Positioned) => Some(Probe::Reading),
            (Probe::Locating, Reply::Failed(_)) => Some(found(ReadinessOutcome::Undeterminable)),
            (Probe::Reading, Reply::Transferred(n)) => if n == 0 {
                Some(found(ReadinessOutcome::Empty))
            } else if n <= PROBE_LEN {
                Some(Probe::Restoring { offset: (-(n as int)) as i64 })
            } else {
                None
            },
            (Probe::Reading, Reply::Failed(_)) => Some(failed(ProbeError::Read)),
            (Probe::Restoring { .. }, Reply::Positioned) => Some(found(ReadinessOutcome::Ready)),
            (Probe::Restoring { .. }, Reply::Failed(_)) => Some(failed(ProbeError::Restore)),
            _ => None,
        }
    }

    /// Whether this state can come up in a probe: a restoring seek goes back
    /// by at least one byte and by no more than were asked for.
    pub open spec fn wf(self) -> bool {
        self matches Probe::Restoring { offset } ==> -(PROBE_LEN as int) <= offset <= -1
    }

    /// A probe that has made no call yet.
    pub fn new() -> (probe: Probe)
        ensures
            probe == Probe::start(),
            probe.wf(),
    {
        Probe::Opening
    }

    /// The call to make now, or `None` once the probe is done.
    pub fn request(&self) -> (request: Option<Request>)
        ensures
            request == self.request_spec(),
    {
        match self {
            Probe::Opening => Some(Request::OpenPipe { close_on_exec: true }),
            Probe::Duplicating => Some(Request::Duplicate { len: PROBE_LEN }),
            Probe::Locating => Some(Request::Seek { offset: 0 }),
            Probe::Reading => Some(Request::Read { len: PROBE_LEN }),
            Probe::Restoring { offset } => Some(Request::Seek { offset: *offset }),
            Probe::Finished { .. } => None,
        }
    }

    /// The result of the probe, or `None` while a call is outstanding.
    pub fn result(&self) -> (result: Option<Result<ReadinessOutcome, ProbeError>>)
        ensures
            result == self.result_spec(),
    {
        match self {
            Probe::Finished { result } => Some(*result),
            _ => None,
        }
    }

    /// Takes what the outstanding call returned and moves on. Returns `None`,
    /// and so ends the probe without a result, where `reply` cannot be the
    /// return of the call that [`Probe::request`] named.
    pub fn step(self, reply: Reply) -> (next: Option<Probe>)
        ensures
            next == self.step_spec(reply),
            next matches Some(probe) ==> probe.wf(),
    {
        match self {
            Probe::Opening => match reply {
                Reply::PipeOpened => Some(Probe::Duplicating),
                Reply::Failed(_) => Some(Probe::Finished { result: Err(ProbeError::ScratchPipe) }),
                _ => None,
            },
            Probe::Duplicating => match reply {
                Reply::Transferred(n) => conclude_duplication(n),
                Reply::Failed(Fault::WrongKind) => Some(Probe::Locating),
                Reply::Failed(Fault::Exhausted) => Some(
                    Probe::Finished { result: Err(ProbeError::Exhausted) },
                ),
                _ => None,
            },
            Probe::Locating => match reply {
                Reply::Positioned => Some(Probe::Reading),
                Reply::Failed(_) => Some(
                    Probe::Finished { result: Ok(ReadinessOutcome::Undeterminable) },
                ),
                _ => None,
            },
            Probe::Reading => match reply {
                Reply::Transferred(n) => conclude_read(n),
                Reply::Failed(_) => Some(Probe::Finished { result: Err(ProbeError::Read) }),
                _ => None,
            },
            Probe::Restoring { .. } => match reply {
                Reply::Positioned => Some(Probe::Finished { result: Ok(ReadinessOutcome::Ready) }),
                Reply::Failed(_) => Some(Probe::Finished { result: Err(ProbeError::Restore) }),
                _ => None,
            },
            Probe::Finished { .. } => None,
        }
    }
}

/// The final state that reports `outcome`.
pub open spec fn found(outcome: ReadinessOutcome) -> Probe {
    Probe::Finished { result: Ok(outcome) }
}

/// The final state that reports `error`.
pub open spec fn failed(error: ProbeError) -> Probe {
    Probe::Finished { result: Err(error) }
}

/// What a duplication of `n` bytes means: none is the end of the stream, and
/// any is data, which the duplication left in place.
fn conclude_duplication(n: usize) -> (next: Option<Probe>)
    ensures
        next == Probe::Duplicating.step_spec(Reply::Transferred(n)),
{
    if n == 0 {
        Some(Probe::Finished { result: Ok(ReadinessOutcome::Empty) })
    } else if n <= PROBE_LEN {
        Some(Probe::Finished { result: Ok(ReadinessOutcome::Ready) })
    } else {
        None
    }
}

/// What a read of `n` bytes means: none is the end of the stream, and any
/// must be put back by a seek of as many bytes.
fn conclude_read(n: usize) -> (next: Option<Probe>)
    ensures
        next == Probe::Reading.step_spec(Reply::Transferred(n)),
{
    if n == 0 {
        Some(Probe::Finished { result: Ok(ReadinessOutcome::Empty) })
    } else if n <= PROBE_LEN {
        let taken: i64 = n as i64;
        Some(Probe::Restoring { offset: -taken })
    } else {
        None
    }
}

} // verus!
