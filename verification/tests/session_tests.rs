use cmplog_harvest::session::{
    Action, Event, Phase, ReadOutcome, Session, SessionError, SetupFailure,
};

fn fresh() -> Session {
    let s = Session::new();
    assert_eq!(s.phase, Phase::Created);
    assert_eq!(s.error, None);
    s
}

/// Drive a fresh session up to the given phase along the cooperating path.
fn advance_to(target: Phase) -> Session {
    let mut s = fresh();
    let script = [
        (Phase::Spawned, Event::Spawned),
        (Phase::HandshakeWait, Event::SurplusClosed(true)),
        (Phase::Ready, Event::Hello(ReadOutcome::Bytes(0, 0, 0, 0))),
        (Phase::AwaitWorker, Event::GoSent(true)),
        (Phase::Running, Event::WorkerPid(ReadOutcome::Bytes(0x34, 0x12, 0, 0))),
        (Phase::Terminating, Event::TerminateRequested),
        (Phase::AwaitStatus, Event::SignalSent(true)),
        (Phase::Reaped, Event::ExitStatus(ReadOutcome::Bytes(9, 0, 0, 0))),
        (Phase::Harvested, Event::ReportBuilt),
    ];
    for (phase, event) in script {
        if s.phase == target {
            return s;
        }
        s.step(event);
        assert_eq!(s.phase, phase);
    }
    assert_eq!(s.phase, target);
    s
}

#[test]
fn cooperating_child_reaches_harvested() {
    // The child says hello with 4 zero bytes, answers the go token with
    // its pid, and relays an exit status: the session visits every phase
    // and recovers both little-endian words.
    let mut s = fresh();
    s.step(Event::Spawned);
    assert_eq!(s.phase, Phase::Spawned);
    s.step(Event::SurplusClosed(true));
    assert_eq!(s.phase, Phase::HandshakeWait);
    s.step(Event::Hello(ReadOutcome::Bytes(0, 0, 0, 0)));
    assert_eq!(s.phase, Phase::Ready);
    s.step(Event::GoSent(true));
    assert_eq!(s.phase, Phase::AwaitWorker);
    s.step(Event::WorkerPid(ReadOutcome::Bytes(0x34, 0x12, 0, 0)));
    assert_eq!(s.phase, Phase::Running);
    assert_eq!(s.worker_pid, 0x1234);
    s.step(Event::TerminateRequested);
    assert_eq!(s.phase, Phase::Terminating);
    s.step(Event::SignalSent(true));
    assert_eq!(s.phase, Phase::AwaitStatus);
    s.step(Event::ExitStatus(ReadOutcome::Bytes(9, 0, 0, 0)));
    assert_eq!(s.phase, Phase::Reaped);
    assert_eq!(s.exit_status, 9);
    s.step(Event::ReportBuilt);
    assert_eq!(s.phase, Phase::Harvested);
    assert_eq!(s.error, None);
    assert_eq!(s.worker_pid, 0x1234);
    assert_eq!(s.exit_status, 9);
}

#[test]
fn hello_eof_is_protocol_violation() {
    // The simulated child closes its status-pipe write end before the
    // hello: the session aborts, it does not hang or read on.
    let mut s = advance_to(Phase::HandshakeWait);
    s.step(Event::Hello(ReadOutcome::Closed));
    assert_eq!(s.phase, Phase::Aborted);
    assert_eq!(s.error, Some(SessionError::ProtocolViolation));
}

#[test]
fn hello_read_failure_is_pipe_error() {
    let mut s = advance_to(Phase::HandshakeWait);
    s.step(Event::Hello(ReadOutcome::Failed));
    assert_eq!(s.phase, Phase::Aborted);
    assert_eq!(s.error, Some(SessionError::PipeError));
}

#[test]
fn worker_pid_eof_is_protocol_violation() {
    let mut s = advance_to(Phase::AwaitWorker);
    s.step(Event::WorkerPid(ReadOutcome::Closed));
    assert_eq!(s.phase, Phase::Aborted);
    assert_eq!(s.error, Some(SessionError::ProtocolViolation));
}

#[test]
fn status_eof_is_session_aborted_not_status_zero() {
    let mut s = advance_to(Phase::AwaitStatus);
    s.step(Event::ExitStatus(ReadOutcome::Closed));
    assert_eq!(s.phase, Phase::Aborted);
    assert_eq!(s.error, Some(SessionError::SessionAborted));
    assert_ne!(s.phase, Phase::Reaped);
}

#[test]
fn negative_exit_status_is_recovered() {
    let mut s = advance_to(Phase::AwaitStatus);
    s.step(Event::ExitStatus(ReadOutcome::Bytes(0xF1, 0xFF, 0xFF, 0xFF)));
    assert_eq!(s.phase, Phase::Reaped);
    assert_eq!(s.exit_status, -15);
}

#[test]
fn shared_memory_failure_is_resource_error() {
    let mut s = fresh();
    s.step(Event::SetupFailed(SetupFailure::SharedMemory));
    assert_eq!(s.phase, Phase::Aborted);
    assert_eq!(s.error, Some(SessionError::ResourceError));
}

#[test]
fn pipe_creation_failure_is_pipe_error() {
    let mut s = fresh();
    s.step(Event::SetupFailed(SetupFailure::PipeCreation));
    assert_eq!(s.phase, Phase::Aborted);
    assert_eq!(s.error, Some(SessionError::PipeError));
}

#[test]
fn fork_failure_is_process_error() {
    let mut s = fresh();
    s.step(Event::SetupFailed(SetupFailure::Fork));
    assert_eq!(s.phase, Phase::Aborted);
    assert_eq!(s.error, Some(SessionError::ProcessError));
}

#[test]
fn close_failure_aborts() {
    let mut s = advance_to(Phase::Spawned);
    s.step(Event::SurplusClosed(false));
    assert_eq!(s.phase, Phase::Aborted);
    assert_eq!(s.error, Some(SessionError::PipeError));
}

#[test]
fn go_write_failure_is_pipe_error() {
    let mut s = advance_to(Phase::Ready);
    s.step(Event::GoSent(false));
    assert_eq!(s.phase, Phase::Aborted);
    assert_eq!(s.error, Some(SessionError::PipeError));
}

#[test]
fn signal_failure_is_process_error() {
    let mut s = advance_to(Phase::Terminating);
    s.step(Event::SignalSent(false));
    assert_eq!(s.phase, Phase::Aborted);
    assert_eq!(s.error, Some(SessionError::ProcessError));
}

#[test]
fn out_of_phase_event_changes_nothing() {
    let mut s = fresh();
    let before = s;
    s.step(Event::ReportBuilt);
    assert_eq!(s, before);
    s.step(Event::ExitStatus(ReadOutcome::Bytes(1, 2, 3, 4)));
    assert_eq!(s, before);
    let mut aborted = advance_to(Phase::HandshakeWait);
    aborted.step(Event::Hello(ReadOutcome::Closed));
    let stuck = aborted;
    aborted.step(Event::Hello(ReadOutcome::Bytes(0, 0, 0, 0)));
    assert_eq!(aborted, stuck);
}

#[test]
fn required_action_follows_the_phase() {
    assert_eq!(fresh().required_action(), Action::Spawn);
    assert_eq!(advance_to(Phase::Spawned).required_action(), Action::CloseSurplusEnds);
    assert_eq!(advance_to(Phase::HandshakeWait).required_action(), Action::AwaitHello);
    assert_eq!(advance_to(Phase::Ready).required_action(), Action::SendGo);
    assert_eq!(advance_to(Phase::AwaitWorker).required_action(), Action::AwaitWorkerPid);
    assert_eq!(advance_to(Phase::Running).required_action(), Action::AwaitTrigger);
    assert_eq!(advance_to(Phase::Terminating).required_action(), Action::SignalWorker);
    assert_eq!(advance_to(Phase::AwaitStatus).required_action(), Action::AwaitExitStatus);
    assert_eq!(advance_to(Phase::Reaped).required_action(), Action::BuildReport);
    assert_eq!(advance_to(Phase::Harvested).required_action(), Action::Finished);
    let mut failed = fresh();
    failed.step(Event::SetupFailed(SetupFailure::Fork));
    assert_eq!(failed.required_action(), Action::ReportFailure);
}
