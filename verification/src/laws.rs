//! What holds of every run of the probe, proved against [`crate::model`].

use vstd::prelude::*;
use crate::exit::{dispose_spec, Disposition, ExitReason};
use crate::model::{
    answers, ends_in_fault, follow, is_run, probe_after, run, world_after, Step, StreamKind, World,
};
use crate::probe::{failed, found, Fault, Probe, Reply, Request, PROBE_LEN};
use crate::readiness::{ProbeError, ReadinessOutcome};

verus! {

/// What a run that began in `origin` has kept true by the time it stands at
/// `probe` and `world`.
///
/// The input is where it was found, but for the bytes that a pending restore
/// is about to put back; each strategy is entered only for the kind of
/// stream it is made for; and an outcome is the one the input calls for.
spec fn consistent(origin: World, probe: Probe, world: World) -> bool {
    &&& world.input.kind == origin.input.kind
    &&& world.input.data == origin.input.data
    &&& origin.leaks() || !world.leaks()
    &&& match probe {
        Probe::Opening => world.input == origin.input,
        Probe::Duplicating => world.input == origin.input && world.scratch.len() > 0,
        Probe::Locating => world.input == origin.input && !(origin.input.kind is Pipe),
        Probe::Reading => world.input == origin.input && origin.input.kind is File,
        Probe::Restoring { offset } => {
            &&& origin.input.kind is File
            &&& origin.input.remaining().len() > 0
            &&& -(PROBE_LEN as int) <= offset <= -1
            &&& world.input.offset + offset == origin.input.offset
        },
        Probe::Finished { result } => match result {
            Ok(outcome) => world.input == origin.input && outcome == origin.input.readiness(),
            Err(ProbeError::Restore) => true,
            Err(_) => world.input == origin.input,
        },
    }
}

/// How many calls a probe in this state can still make.
spec fn calls_left(probe: Probe) -> nat {
    match probe {
        Probe::Opening => 5,
        Probe::Duplicating => 4,
        Probe::Locating => 3,
        Probe::Reading => 2,
        Probe::Restoring { .. } => 1,
        Probe::Finished { .. } => 0,
    }
}

/// One call keeps a run consistent and brings it nearer its end.
proof fn lemma_follow_consistent(origin: World, probe: Probe, world: World, step: Step)
    requires
        consistent(origin, probe, world),
        follow(probe, world, step) is Some,
    ensures
        consistent(origin, follow(probe, world, step).unwrap().0, step.after),
        follow(probe, world, step).unwrap().1 == step.after,
        calls_left(follow(probe, world, step).unwrap().0) < calls_left(probe),
{
    let request = probe.request_spec().unwrap();
    assert(answers(world, request, step.reply, step.after));
    if request is OpenPipe && step.reply is PipeOpened {
        let flags = step.after.scratch;
        assert(flags == world.scratch.push(true).push(true));
        assert forall|i: int| 0 <= i < flags.len() && !world.leaks() implies flags[i] by {
            if i < world.scratch.len() {
                assert(flags[i] == world.scratch[i]);
            }
        }
    }
}

/// Every run is consistent, and has made no more calls than a probe can
/// make.
proof fn lemma_run_consistent(origin: World, steps: Seq<Step>)
    requires
        is_run(origin, steps),
    ensures
        consistent(origin, probe_after(origin, steps), world_after(origin, steps)),
        steps.len() + calls_left(probe_after(origin, steps)) <= 5,
        steps.len() > 0 ==> is_run(origin, steps.drop_last()),
    decreases steps.len(),
{
    if steps.len() > 0 {
        lemma_run_consistent(origin, steps.drop_last());
        lemma_follow_consistent(
            origin,
            probe_after(origin, steps.drop_last()),
            world_after(origin, steps.drop_last()),
            steps.last(),
        );
    }
}

/// The probe leaves its input as it found it: the same bytes at the same
/// read position. This holds at every point of every run, but while the
/// bytes that were read wait to be put back, and after the seek that should
/// have put them back has failed.
pub proof fn lemma_probe_preserves_input(origin: World, steps: Seq<Step>)
    requires
        is_run(origin, steps),
        !(probe_after(origin, steps) is Restoring),
        probe_after(origin, steps) != failed(ProbeError::Restore),
    ensures
        world_after(origin, steps).input == origin.input,
        world_after(origin, steps).input.remaining() == origin.input.remaining(),
{
    lemma_run_consistent(origin, steps);
}

/// The probe takes nothing that it could not put back: it asks to read, and
/// to seek by more than nothing, on a file only. A stream that is found
/// `Undeterminable` was never read from.
pub proof fn lemma_probe_reads_files_only(origin: World, steps: Seq<Step>)
    requires
        is_run(origin, steps),
    ensures
        match probe_after(origin, steps).request_spec() {
            Some(Request::Read { .. }) => origin.input.kind is File,
            Some(Request::Seek { offset }) => offset != 0 ==> origin.input.kind is File,
            _ => true,
        },
{
    lemma_run_consistent(origin, steps);
}

/// An outcome is the one that the input calls for. Data on a pipe or a file
/// is reported as `Ready` and their end as `Empty`, never one for the other,
/// and `Undeterminable` is reported of the other streams and of no pipe or
/// file.
pub proof fn lemma_outcome_is_readiness(origin: World, steps: Seq<Step>, outcome: ReadinessOutcome)
    requires
        is_run(origin, steps),
        probe_after(origin, steps) == found(outcome),
    ensures
        outcome == origin.input.readiness(),
        outcome is Ready <==> !(origin.input.kind is Other) && origin.input.remaining().len() > 0,
        outcome is Empty <==> !(origin.input.kind is Other) && origin.input.remaining().len() == 0,
        outcome is Undeterminable <==> origin.input.kind is Other,
{
    lemma_run_consistent(origin, steps);
}

/// A probe ends in an error where its last call met a fault, and nowhere
/// else.
pub proof fn lemma_error_is_fault(origin: World, steps: Seq<Step>)
    requires
        is_run(origin, steps),
    ensures
        probe_after(origin, steps).result_spec() matches Some(Err(_)) <==> ends_in_fault(
            origin,
            steps,
        ),
{
    lemma_run_consistent(origin, steps);
    if steps.len() > 0 {
        lemma_run_consistent(origin, steps.drop_last());
    }
}

/// A probe that has met no fault and is done reports what the input calls
/// for: `Ready` whenever a pipe or a file has a byte to give, `Empty`
/// whenever it has none.
pub proof fn lemma_probe_decides(origin: World, steps: Seq<Step>)
    requires
        is_run(origin, steps),
        probe_after(origin, steps) is Finished,
        !ends_in_fault(origin, steps),
    ensures
        probe_after(origin, steps) == found(origin.input.readiness()),
{
    lemma_run_consistent(origin, steps);
    lemma_error_is_fault(origin, steps);
}

/// The calls of a probe of `origin` that meets no fault, each with what it
/// returns and the world it leaves.
pub open spec fn faultless_run(origin: World) -> Seq<Step> {
    let opened = origin.with_pipe(true);
    let open = Step { reply: Reply::PipeOpened, after: opened };
    let refuse = Step { reply: Reply::Failed(Fault::WrongKind), after: opened };
    let locate = Step { reply: Reply::Positioned, after: opened };
    let none = Step { reply: Reply::Transferred(0), after: opened };
    match origin.input.kind {
        StreamKind::Pipe => if origin.input.remaining().len() > 0 {
            seq![open, Step { reply: Reply::Transferred(1), after: opened }]
        } else {
            seq![open, none]
        },
        StreamKind::File => if origin.input.remaining().len() > 0 {
            seq![
                open,
                refuse,
                locate,
                Step { reply: Reply::Transferred(1), after: opened.moved(1) },
                locate,
            ]
        } else {
            seq![open, refuse, locate, none]
        },
        StreamKind::Other => seq![
            open,
            refuse,
            Step { reply: Reply::Failed(Fault::Other), after: opened },
        ],
    }
}

/// The first `i + 1` calls of a run are its first `i` calls, followed by the
/// next.
proof fn lemma_run_next(probe: Probe, world: World, steps: Seq<Step>, i: int)
    requires
        0 <= i < steps.len(),
    ensures
        run(probe, world, steps.take(i + 1)) == match run(probe, world, steps.take(i)) {
            Some((before, then)) => follow(before, then, steps[i]),
            None => None,
        },
{
    assert(steps.take(i + 1).drop_last() == steps.take(i));
}

/// Every input can be probed: the calls of [`faultless_run`] make a run, in
/// which a pipe is duplicated from, a file is read and put back, and no
/// other stream is read at all. It ends in what the input calls for, and
/// leaves nothing behind but the scratch pipe.
pub proof fn lemma_every_input_can_be_probed(origin: World)
    ensures
        is_run(origin, faultless_run(origin)),
        probe_after(origin, faultless_run(origin)) == found(origin.input.readiness()),
        world_after(origin, faultless_run(origin)) == origin.with_pipe(true),
{
    let start = Probe::start();
    let steps = faultless_run(origin);
    let opened = origin.with_pipe(true);
    assert(opened.scratch.len() == origin.scratch.len() + 2);
    assert(opened.moved(0) == opened);
    assert(opened.moved(1).moved(-1) == opened);
    assert(run(start, origin, steps.take(0)) == Some((start, origin)));
    lemma_run_next(start, origin, steps, 0);
    assert(run(start, origin, steps.take(1)) == Some((Probe::Duplicating, opened)));
    lemma_run_next(start, origin, steps, 1);
    if steps.len() > 2 {
        assert(run(start, origin, steps.take(2)) == Some((Probe::Locating, opened)));
        lemma_run_next(start, origin, steps, 2);
        if steps.len() > 3 {
            assert(run(start, origin, steps.take(3)) == Some((Probe::Reading, opened)));
            lemma_run_next(start, origin, steps, 3);
            if steps.len() > 4 {
                assert(run(start, origin, steps.take(4)) == Some(
                    (Probe::Restoring { offset: -1i64 }, opened.moved(1)),
                ));
                lemma_run_next(start, origin, steps, 4);
            }
        }
    }
    assert(steps.take(steps.len() as int) == steps);
}

/// Probing twice in a row gives the same outcome twice: the second probe
/// finds the input as the first left it, which is as the first found it.
pub proof fn lemma_probe_is_idempotent(
    origin: World,
    first: Seq<Step>,
    second: Seq<Step>,
    once: ReadinessOutcome,
    twice: ReadinessOutcome,
)
    requires
        is_run(origin, first),
        probe_after(origin, first) == found(once),
        is_run(world_after(origin, first), second),
        probe_after(world_after(origin, first), second) == found(twice),
    ensures
        once == twice,
        world_after(world_after(origin, first), second).input == origin.input,
{
    lemma_run_consistent(origin, first);
    lemma_run_consistent(world_after(origin, first), second);
}

/// No scratch descriptor outlives the replacement of the process image:
/// every descriptor that a run has opened is marked close-on-exec.
pub proof fn lemma_probe_leaks_nothing(origin: World, steps: Seq<Step>)
    requires
        !origin.leaks(),
        is_run(origin, steps),
    ensures
        !world_after(origin, steps).leaks(),
{
    lemma_run_consistent(origin, steps);
}

/// The command is run only on an input that has data. It finds that input as
/// the guard found it, and no scratch descriptor of the guard with it.
pub proof fn lemma_command_gets_untouched_data(
    origin: World,
    steps: Seq<Step>,
    result: Result<ReadinessOutcome, ProbeError>,
)
    requires
        !origin.leaks(),
        is_run(origin, steps),
        probe_after(origin, steps).result_spec() == Some(result),
        dispose_spec(result) is Replace,
    ensures
        !(origin.input.kind is Other),
        origin.input.remaining().len() > 0,
        world_after(origin, steps).input == origin.input,
        !world_after(origin, steps).leaks(),
{
    lemma_run_consistent(origin, steps);
}

/// The guard exits with status 3 only on a pipe or a file at its end, and
/// then it has left the input as it found it.
pub proof fn lemma_status_three_is_the_end_of_input(
    origin: World,
    steps: Seq<Step>,
    result: Result<ReadinessOutcome, ProbeError>,
    reason: ExitReason,
)
    requires
        is_run(origin, steps),
        probe_after(origin, steps).result_spec() == Some(result),
        dispose_spec(result) == Disposition::Exit(reason),
        reason.exit_status_spec() == 3,
    ensures
        !(origin.input.kind is Other),
        origin.input.remaining().len() == 0,
        world_after(origin, steps).input == origin.input,
{
    lemma_run_consistent(origin, steps);
}

/// The probe takes whatever the system can answer: no run ends for want of a
/// next state.
pub proof fn lemma_probe_takes_every_answer(
    origin: World,
    steps: Seq<Step>,
    request: Request,
    reply: Reply,
    after: World,
)
    requires
        is_run(origin, steps),
        probe_after(origin, steps).request_spec() == Some(request),
        answers(world_after(origin, steps), request, reply, after),
    ensures
        probe_after(origin, steps).step_spec(reply) is Some,
        is_run(origin, steps.push(Step { reply, after })),
{
    lemma_run_consistent(origin, steps);
    assert(steps.push(Step { reply, after }).drop_last() == steps);
}

/// A probe is done after five calls at most.
pub proof fn lemma_probe_ends(origin: World, steps: Seq<Step>)
    requires
        is_run(origin, steps),
    ensures
        steps.len() <= 5,
        steps.len() == 5 ==> probe_after(origin, steps) is Finished,
{
    lemma_run_consistent(origin, steps);
}

} // verus!
