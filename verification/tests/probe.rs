//! The probe's transitions, one by one.

use lazy::probe::{Fault, Probe, Reply, Request, PROBE_LEN};
use lazy::readiness::{ProbeError, ReadinessOutcome};

fn finished(result: Result<ReadinessOutcome, ProbeError>) -> Option<Probe> {
    Some(Probe::Finished { result })
}

#[test]
fn probe_asks_for_one_byte() {
    assert_eq!(PROBE_LEN, 1);
}

#[test]
fn new_probe_asks_for_a_close_on_exec_pipe() {
    let probe = Probe::new();
    assert_eq!(probe, Probe::Opening);
    assert_eq!(probe.request(), Some(Request::OpenPipe { close_on_exec: true }));
    assert_eq!(probe.result(), None);
}

#[test]
fn each_state_names_its_request() {
    assert_eq!(Probe::Duplicating.request(), Some(Request::Duplicate { len: 1 }));
    assert_eq!(Probe::Locating.request(), Some(Request::Seek { offset: 0 }));
    assert_eq!(Probe::Reading.request(), Some(Request::Read { len: 1 }));
    assert_eq!(Probe::Restoring { offset: -1 }.request(), Some(Request::Seek { offset: -1 }));
    assert_eq!(Probe::Finished { result: Ok(ReadinessOutcome::Ready) }.request(), None);
}

#[test]
fn only_a_finished_probe_has_a_result() {
    assert_eq!(Probe::Duplicating.result(), None);
    assert_eq!(Probe::Locating.result(), None);
    assert_eq!(Probe::Reading.result(), None);
    assert_eq!(Probe::Restoring { offset: -1 }.result(), None);
    assert_eq!(
        Probe::Finished { result: Ok(ReadinessOutcome::Empty) }.result(),
        Some(Ok(ReadinessOutcome::Empty))
    );
    assert_eq!(
        Probe::Finished { result: Err(ProbeError::Restore) }.result(),
        Some(Err(ProbeError::Restore))
    );
}

#[test]
fn opened_pipe_leads_to_duplication() {
    assert_eq!(Probe::Opening.step(Reply::PipeOpened), Some(Probe::Duplicating));
}

#[test]
fn failed_pipe_ends_the_probe() {
    for fault in [Fault::WrongKind, Fault::Exhausted, Fault::Other] {
        assert_eq!(
            Probe::Opening.step(Reply::Failed(fault)),
            finished(Err(ProbeError::ScratchPipe))
        );
    }
}

#[test]
fn duplication_of_nothing_is_the_end_of_the_stream() {
    assert_eq!(
        Probe::Duplicating.step(Reply::Transferred(0)),
        finished(Ok(ReadinessOutcome::Empty))
    );
}

#[test]
fn duplication_of_a_byte_is_data() {
    assert_eq!(
        Probe::Duplicating.step(Reply::Transferred(1)),
        finished(Ok(ReadinessOutcome::Ready))
    );
}

#[test]
fn duplication_refused_for_the_kind_falls_back_to_seeking() {
    assert_eq!(Probe::Duplicating.step(Reply::Failed(Fault::WrongKind)), Some(Probe::Locating));
}

#[test]
fn duplication_out_of_memory_ends_the_probe() {
    assert_eq!(
        Probe::Duplicating.step(Reply::Failed(Fault::Exhausted)),
        finished(Err(ProbeError::Exhausted))
    );
}

#[test]
fn duplication_fails_in_no_other_way() {
    assert_eq!(Probe::Duplicating.step(Reply::Failed(Fault::Other)), None);
}

#[test]
fn seekable_input_is_read() {
    assert_eq!(Probe::Locating.step(Reply::Positioned), Some(Probe::Reading));
}

#[test]
fn unseekable_input_is_undeterminable() {
    for fault in [Fault::WrongKind, Fault::Exhausted, Fault::Other] {
        assert_eq!(
            Probe::Locating.step(Reply::Failed(fault)),
            finished(Ok(ReadinessOutcome::Undeterminable))
        );
    }
}

#[test]
fn read_of_nothing_is_the_end_of_the_stream() {
    assert_eq!(Probe::Reading.step(Reply::Transferred(0)), finished(Ok(ReadinessOutcome::Empty)));
}

#[test]
fn read_of_a_byte_is_put_back() {
    let next = Probe::Reading.step(Reply::Transferred(1));
    assert_eq!(next, Some(Probe::Restoring { offset: -1 }));
    assert_eq!(next.unwrap().request(), Some(Request::Seek { offset: -1 }));
}

#[test]
fn failed_read_ends_the_probe() {
    for fault in [Fault::WrongKind, Fault::Exhausted, Fault::Other] {
        assert_eq!(Probe::Reading.step(Reply::Failed(fault)), finished(Err(ProbeError::Read)));
    }
}

#[test]
fn restored_input_is_ready() {
    assert_eq!(
        Probe::Restoring { offset: -1 }.step(Reply::Positioned),
        finished(Ok(ReadinessOutcome::Ready))
    );
}

#[test]
fn failed_restore_ends_the_probe() {
    for fault in [Fault::WrongKind, Fault::Exhausted, Fault::Other] {
        assert_eq!(
            Probe::Restoring { offset: -1 }.step(Reply::Failed(fault)),
            finished(Err(ProbeError::Restore))
        );
    }
}

#[test]
fn more_bytes_than_asked_for_answer_no_request() {
    assert_eq!(Probe::Duplicating.step(Reply::Transferred(2)), None);
    assert_eq!(Probe::Reading.step(Reply::Transferred(2)), None);
    assert_eq!(Probe::Reading.step(Reply::Transferred(usize::MAX)), None);
}

#[test]
fn replies_of_another_call_are_not_taken() {
    assert_eq!(Probe::Opening.step(Reply::Transferred(1)), None);
    assert_eq!(Probe::Opening.step(Reply::Positioned), None);
    assert_eq!(Probe::Duplicating.step(Reply::PipeOpened), None);
    assert_eq!(Probe::Duplicating.step(Reply::Positioned), None);
    assert_eq!(Probe::Locating.step(Reply::PipeOpened), None);
    assert_eq!(Probe::Locating.step(Reply::Transferred(1)), None);
    assert_eq!(Probe::Reading.step(Reply::PipeOpened), None);
    assert_eq!(Probe::Reading.step(Reply::Positioned), None);
    assert_eq!(Probe::Restoring { offset: -1 }.step(Reply::PipeOpened), None);
    assert_eq!(Probe::Restoring { offset: -1 }.step(Reply::Transferred(1)), None);
}

#[test]
fn finished_probe_takes_no_reply() {
    let done = Probe::Finished { result: Ok(ReadinessOutcome::Ready) };
    for reply in [
        Reply::PipeOpened,
        Reply::Transferred(0),
        Reply::Transferred(1),
        Reply::Positioned,
        Reply::Failed(Fault::Other),
    ] {
        assert_eq!(done.step(reply), None);
    }
}

#[test]
fn probe_makes_five_calls_at_most() {
    let replies = [
        Reply::PipeOpened,
        Reply::Failed(Fault::WrongKind),
        Reply::Positioned,
        Reply::Transferred(1),
        Reply::Positioned,
    ];
    let mut probe = Probe::new();
    let mut calls = 0;
    for reply in replies {
        assert!(probe.request().is_some());
        probe = probe.step(reply).unwrap();
        calls += 1;
    }
    assert_eq!(calls, 5);
    assert_eq!(probe.request(), None);
    assert_eq!(probe.result(), Some(Ok(ReadinessOutcome::Ready)));
}
