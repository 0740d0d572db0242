//! What follows each result of a probe, and the exit status of each ending.

use lazy::command::CommandLine;
use lazy::exit::{dispose, Disposition, ExitReason};
use lazy::probe::{Fault, Probe, Reply};
use lazy::readiness::{ProbeError, ReadinessOutcome};

const REASONS: [ExitReason; 8] = [
    ExitReason::Usage,
    ExitReason::ScratchPipe,
    ExitReason::Exhausted,
    ExitReason::Undeterminable,
    ExitReason::Read,
    ExitReason::Restore,
    ExitReason::Empty,
    ExitReason::Exec,
];

#[test]
fn only_a_ready_input_leads_to_the_command() {
    assert_eq!(dispose(Ok(ReadinessOutcome::Ready)), Disposition::Replace);
    for result in [
        Ok(ReadinessOutcome::Empty),
        Ok(ReadinessOutcome::Undeterminable),
        Err(ProbeError::ScratchPipe),
        Err(ProbeError::Exhausted),
        Err(ProbeError::Read),
        Err(ProbeError::Restore),
    ] {
        assert_ne!(dispose(result), Disposition::Replace);
    }
}

#[test]
fn each_result_ends_for_its_own_reason() {
    assert_eq!(dispose(Ok(ReadinessOutcome::Empty)), Disposition::Exit(ExitReason::Empty));
    assert_eq!(
        dispose(Ok(ReadinessOutcome::Undeterminable)),
        Disposition::Exit(ExitReason::Undeterminable)
    );
    assert_eq!(dispose(Err(ProbeError::ScratchPipe)), Disposition::Exit(ExitReason::ScratchPipe));
    assert_eq!(dispose(Err(ProbeError::Exhausted)), Disposition::Exit(ExitReason::Exhausted));
    assert_eq!(dispose(Err(ProbeError::Read)), Disposition::Exit(ExitReason::Read));
    assert_eq!(dispose(Err(ProbeError::Restore)), Disposition::Exit(ExitReason::Restore));
}

#[test]
fn exit_statuses_are_fixed() {
    assert_eq!(ExitReason::Usage.exit_status(), 2);
    assert_eq!(ExitReason::Empty.exit_status(), 3);
    assert_eq!(ExitReason::ScratchPipe.exit_status(), 1);
    assert_eq!(ExitReason::Exhausted.exit_status(), 1);
    assert_eq!(ExitReason::Undeterminable.exit_status(), 1);
    assert_eq!(ExitReason::Read.exit_status(), 1);
    assert_eq!(ExitReason::Restore.exit_status(), 1);
    assert_eq!(ExitReason::Exec.exit_status(), 1);
}

#[test]
fn no_ending_exits_with_success() {
    for reason in REASONS {
        assert_ne!(reason.exit_status(), 0);
    }
}

#[test]
fn every_failure_is_reported_and_the_end_of_input_is_not() {
    for reason in REASONS {
        let text = reason.diagnostic();
        if reason == ExitReason::Empty {
            assert_eq!(text, None);
        } else {
            assert!(!text.unwrap().is_empty());
        }
    }
}

#[test]
fn diagnostics_name_what_failed() {
    assert_eq!(
        ExitReason::Usage.diagnostic(),
        Some("saw no arguments, at least one is required (use `true(1)`?)")
    );
    assert_eq!(ExitReason::ScratchPipe.diagnostic(), Some("could not create pipe with `pipe2(2)`"));
    assert_eq!(ExitReason::Exhausted.diagnostic(), Some("`tee(2)` failed"));
    assert_eq!(ExitReason::Undeterminable.diagnostic(), Some("stdin not a pipe and not seekable"));
    assert_eq!(ExitReason::Read.diagnostic(), Some("could not read stdin"));
    assert_eq!(ExitReason::Restore.diagnostic(), Some("could not lseek"));
    assert_eq!(ExitReason::Exec.diagnostic(), Some("`execv(3)` failed"));
}

#[test]
fn undeterminable_input_has_a_diagnostic_of_its_own() {
    let text = ExitReason::Undeterminable.diagnostic();
    for reason in REASONS {
        if reason != ExitReason::Undeterminable {
            assert_ne!(reason.diagnostic(), text);
        }
    }
}

#[test]
fn failed_pipe_creation_exits_with_one_and_says_so() {
    let probe = Probe::new().step(Reply::Failed(Fault::Other)).unwrap();
    let result = probe.result().unwrap();
    assert_eq!(result, Err(ProbeError::ScratchPipe));
    let disposition = dispose(result);
    assert_eq!(disposition, Disposition::Exit(ExitReason::ScratchPipe));
    assert_eq!(ExitReason::ScratchPipe.exit_status(), 1);
    assert!(ExitReason::ScratchPipe.diagnostic().unwrap().contains("pipe"));
}

#[test]
fn ready_input_and_a_command_lead_to_replacement() {
    let command = CommandLine::new(vec![b"true".to_vec()]).unwrap();
    let probe = Probe::new()
        .step(Reply::PipeOpened)
        .unwrap()
        .step(Reply::Transferred(1))
        .unwrap();
    assert_eq!(dispose(probe.result().unwrap()), Disposition::Replace);
    assert_eq!(command.program(), &b"true".to_vec());
    assert_eq!(command.words().len(), 1);
}

#[test]
fn exhausted_duplication_exits_with_one() {
    let probe = Probe::new()
        .step(Reply::PipeOpened)
        .unwrap()
        .step(Reply::Failed(Fault::Exhausted))
        .unwrap();
    let disposition = dispose(probe.result().unwrap());
    assert_eq!(disposition, Disposition::Exit(ExitReason::Exhausted));
    assert_eq!(ExitReason::Exhausted.exit_status(), 1);
}

#[test]
fn failed_restore_exits_with_one() {
    let probe = Probe::new()
        .step(Reply::PipeOpened)
        .unwrap()
        .step(Reply::Failed(Fault::WrongKind))
        .unwrap()
        .step(Reply::Positioned)
        .unwrap()
        .step(Reply::Transferred(1))
        .unwrap()
        .step(Reply::Failed(Fault::Other))
        .unwrap();
    let disposition = dispose(probe.result().unwrap());
    assert_eq!(disposition, Disposition::Exit(ExitReason::Restore));
    assert_eq!(ExitReason::Restore.exit_status(), 1);
}
