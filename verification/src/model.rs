//! A description of standard input and of what each request does to it.
//!
//! Nothing here runs. The description says what the laws of this crate take
//! for granted about the system: duplicating consumes nothing, reading moves
//! the read position by what was read, seeking moves it by the offset, and
//! only a file can be repositioned.

use vstd::prelude::*;
use crate::probe::{Fault, Probe, Reply, Request};
use crate::readiness::ReadinessOutcome;

verus! {

/// What can be done with a stream.
pub enum StreamKind {
    /// Can be duplicated from, cannot be repositioned.
    Pipe,
    /// Can be repositioned, cannot be duplicated from.
    File,
    /// Neither: a terminal, a socket.
    Other,
}

/// An input stream: every byte it will ever deliver, and how many of them
/// have been consumed.
pub struct Stream {
    pub kind: StreamKind,
    pub data: Seq<u8>,
    pub offset: nat,
}

impl Stream {
    /// What a reader of this stream will still get.
    pub open spec fn remaining(self) -> Seq<u8> {
        if self.offset <= self.data.len() {
            self.data.skip(self.offset as int)
        } else {
            Seq::empty()
        }
    }

    /// This stream with its read position moved by `by` bytes.
    pub open spec fn moved(self, by: int) -> Stream {
        Stream { offset: (self.offset + by) as nat, ..self }
    }

    /// What a probe should find: data or the end on a pipe or a file,
    /// and nothing that can be known on any other stream.
    pub open spec fn readiness(self) -> ReadinessOutcome {
        if self.kind is Other {
            ReadinessOutcome::Undeterminable
        } else if self.remaining().len() > 0 {
            ReadinessOutcome::Ready
        } else {
            ReadinessOutcome::Empty
        }
    }
}

/// What the probe can change: standard input, and the scratch descriptors
/// that are open, each with its close-on-exec flag.
pub struct World {
    pub input: Stream,
    pub scratch: Seq<bool>,
}

impl World {
    /// This world with the two ends of a new pipe.
    pub open spec fn with_pipe(self, close_on_exec: bool) -> World {
        World { scratch: self.scratch.push(close_on_exec).push(close_on_exec), ..self }
    }

    /// This world with the read position of its input moved by `by` bytes.
    pub open spec fn moved(self, by: int) -> World {
        World { input: self.input.moved(by), ..self }
    }

    /// Whether a replaced process image would inherit a scratch descriptor.
    pub open spec fn leaks(self) -> bool {
        exists|i: int| 0 <= i < self.scratch.len() && !self.scratch[i]
    }
}

/// Whether a call that asks for up to `len` of `available` bytes can report
/// `n`: no more than either, and one at least where there is one to have.
pub open spec fn may_transfer(available: nat, len: usize, n: usize) -> bool {
    &&& n <= len
    &&& n <= available
    &&& available > 0 && len > 0 ==> n >= 1
}

/// Whether `request`, made in `before`, can return `reply` and leave `after`.
///
/// - A pipe is created with the flag asked for, or is not created.
/// - A duplication changes nothing. It needs a scratch pipe to write to, and
///   works on a pipe only; it may run out of memory.
/// - A seek moves the read position of a file, and of nothing else. It
///   cannot move before the start, and a seek by zero cannot fail on a file.
/// - A read consumes what it reports.
pub open spec fn answers(before: World, request: Request, reply: Reply, after: World) -> bool {
    match request {
        Request::OpenPipe { close_on_exec } => match reply {
            Reply::PipeOpened => after == before.with_pipe(close_on_exec),
            Reply::Failed(_) => after == before,
            _ => false,
        },
        Request::Duplicate { len } => after == before && match reply {
            Reply::Transferred(n) => {
                &&& before.scratch.len() > 0
                &&& before.input.kind is Pipe
                &&& may_transfer(before.input.remaining().len(), len, n)
            },
            Reply::Failed(Fault::WrongKind) => {
                &&& before.scratch.len() > 0
                &&& !(before.input.kind is Pipe)
            },
            Reply::Failed(Fault::Exhausted) => true,
            Reply::Failed(Fault::Other) => before.scratch.len() == 0,
            _ => false,
        },
        Request::Seek { offset } => match reply {
            Reply::Positioned => {
                &&& before.input.kind is File
                &&& before.input.offset + offset >= 0
                &&& after == before.moved(offset as int)
            },
            Reply::Failed(_) => {
                &&& after == before
                &&& !(before.input.kind is File && offset == 0)
            },
            _ => false,
        },
        Request::Read { len } => match reply {
            Reply::Transferred(n) => {
                &&& may_transfer(before.input.remaining().len(), len, n)
                &&& after == before.moved(n as int)
            },
            Reply::Failed(_) => after == before,
            _ => false,
        },
    }
}

/// Whether `reply` is a failure that the kind of the input does not explain:
/// the system had no pipe or no memory to give, or refused a read, or
/// refused to move a file to a position that it has.
pub open spec fn fault(before: World, request: Request, reply: Reply) -> bool {
    match (request, reply) {
        (Request::OpenPipe { .. }, Reply::Failed(_)) => true,
        (Request::Duplicate { .. }, Reply::Failed(Fault::Exhausted)) => true,
        (Request::Read { .. }, Reply::Failed(_)) => true,
        (Request::Seek { offset }, Reply::Failed(_)) => {
            &&& before.input.kind is File
            &&& before.input.offset + offset >= 0
        },
        _ => false,
    }
}

/// One call of a run: what it returned and the world it left.
pub struct Step {
    pub reply: Reply,
    pub after: World,
}

/// Where `probe` and `world` stand once the call that `probe` waits for has
/// returned as `step` says; `None` where `probe` waits for no call, the
/// system cannot answer so, or the probe does not take the reply.
pub open spec fn follow(probe: Probe, world: World, step: Step) -> Option<(Probe, World)> {
    match (probe.request_spec(), probe.step_spec(step.reply)) {
        (Some(request), Some(next)) => if answers(world, request, step.reply, step.after) {
            Some((next, step.after))
        } else {
            None
        },
        _ => None,
    }
}

/// Where `probe` and `world` stand after the calls in `steps`, one after the
/// other; `None` where they do not make a run.
pub open spec fn run(probe: Probe, world: World, steps: Seq<Step>) -> Option<(Probe, World)>
    decreases steps.len(),
{
    if steps.len() == 0 {
        Some((probe, world))
    } else {
        match run(probe, world, steps.drop_last()) {
            Some((before, then)) => follow(before, then, steps.last()),
            None => None,
        }
    }
}

/// Whether `steps` are the calls of a probe that starts in `origin`: each
/// answers the request that the probe made after the calls before it.
pub open spec fn is_run(origin: World, steps: Seq<Step>) -> bool {
    run(Probe::start(), origin, steps) is Some
}

/// Where a probe that started in `origin` stands after the calls in `steps`.
pub open spec fn probe_after(origin: World, steps: Seq<Step>) -> Probe
    recommends
        is_run(origin, steps),
{
    run(Probe::start(), origin, steps).unwrap().0
}

/// What a probe that started in `origin` has left of it after the calls in
/// `steps`.
pub open spec fn world_after(origin: World, steps: Seq<Step>) -> World
    recommends
        is_run(origin, steps),
{
    run(Probe::start(), origin, steps).unwrap().1
}

/// Whether the last of the calls in `steps` met a fault.
pub open spec fn ends_in_fault(origin: World, steps: Seq<Step>) -> bool
    recommends
        is_run(origin, steps),
{
    &&& steps.len() > 0
    &&& probe_after(origin, steps.drop_last()).request_spec() matches Some(request)
    &&& fault(world_after(origin, steps.drop_last()), request, steps.last().reply)
}

} // verus!
