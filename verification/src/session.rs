//! The forkserver session state machine.
//!
//! One session drives exactly one run of the target: spawn, handshake,
//! go, terminate, reap, harvest.  The machine here makes every protocol
//! decision; the surrounding application performs the process and pipe
//! work and feeds each outcome back as an [`Event`].  The three status
//! reads and the control write are strictly ordered by the phases, and
//! every failure moves the session to `Aborted` with a distinct error,
//! never retried.

use vstd::prelude::*;
use crate::wire::{decode_i32_le, spec_i32_from_le};

verus! {

/// Where one session stands.  The protocol only ever moves forward;
/// `Aborted` is the single terminal failure phase.
#[derive(Clone, Copy, Debug, PartialEq, Eq, Structural)]
pub enum Phase {
    /// Nothing acquired yet.
    Created,
    /// The process was duplicated; this is the parent's continuation.
    Spawned,
    /// Surplus pipe ends are closed; awaiting the 4-byte hello.
    HandshakeWait,
    /// Hello received: the forkserver is up, the run not yet begun.
    Ready,
    /// The go token was written; awaiting the worker's identifier.
    AwaitWorker,
    /// The worker's identifier is known; the target is running.
    Running,
    /// Termination was requested; the signal is to be delivered.
    Terminating,
    /// The signal was delivered; awaiting the relayed exit status.
    AwaitStatus,
    /// The worker's raw exit status is known.
    Reaped,
    /// The report was built; the session is complete.
    Harvested,
    /// The session failed; `Session::error` names the failure.
    Aborted,
}

/// The distinct, inspectable failures a session can end in.
#[derive(Clone, Copy, Debug, PartialEq, Eq, Structural)]
pub enum SessionError {
    /// Shared-memory creation or attachment failed.
    ResourceError,
    /// A pipe could not be created, closed, read or written.
    PipeError,
    /// Process duplication or signal delivery failed.
    ProcessError,
    /// A status read ended early while the handshake was still owed:
    /// the child died before completing it.
    ProtocolViolation,
    /// The forkserver died after the handshake, before relaying the
    /// worker's exit status.
    SessionAborted,
}

/// What one blocking 4-byte read of the status pipe came back with.
#[derive(Clone, Copy, Debug, PartialEq, Eq, Structural)]
pub enum ReadOutcome {
    /// Exactly four bytes arrived, in wire order.
    Bytes(u8, u8, u8, u8),
    /// The write end was closed before four bytes arrived.
    Closed,
    /// The read itself failed.
    Failed,
}

/// Which resource could not be set up before the fork.
#[derive(Clone, Copy, Debug, PartialEq, Eq, Structural)]
pub enum SetupFailure {
    /// The shared-memory segment for the comparison map.
    SharedMemory,
    /// One of the two pipes.
    PipeCreation,
    /// The process duplication itself.
    Fork,
}

/// Everything the driving application can report back to the machine.
#[derive(Clone, Copy, Debug, PartialEq, Eq, Structural)]
pub enum Event {
    /// Shared memory, a pipe or the fork could not be had.
    SetupFailed(SetupFailure),
    /// The fork succeeded and this is the parent.
    Spawned,
    /// The parent closed the pipe ends it does not own; `true` if every
    /// close succeeded.
    SurplusClosed(bool),
    /// The first status read: the forkserver's hello.
    Hello(ReadOutcome),
    /// The 4-byte go token was written; `true` if the write succeeded.
    GoSent(bool),
    /// The second status read: the worker's identifier.
    WorkerPid(ReadOutcome),
    /// The external trigger asked for termination.
    TerminateRequested,
    /// The termination signal was sent; `true` if delivery succeeded.
    SignalSent(bool),
    /// The third status read: the worker's relayed exit status.
    ExitStatus(ReadOutcome),
    /// The report was copied out of the comparison map.
    ReportBuilt,
}

/// One forkserver session: the phase, and the two words the status pipe
/// relayed once they are known.
#[derive(Clone, Copy, Debug, PartialEq, Eq, Structural)]
pub struct Session {
    pub phase: Phase,
    /// The worker's process identifier; meaningful from `Running` on.
    pub worker_pid: i32,
    /// The worker's raw exit status; meaningful from `Reaped` on.
    pub exit_status: i32,
    /// The failure the session ended in, exactly when it aborted.
    pub error: Option<SessionError>,
}

/// The session records an error exactly when it stands aborted.
pub open spec fn session_wf(s: Session) -> bool {
    (s.phase is Aborted) <==> (s.error is Some)
}

/// `s`, moved to the aborted phase with failure `e` recorded.
pub open spec fn spec_abort(s: Session, e: SessionError) -> Session {
    Session { phase: Phase::Aborted, error: Some(e), ..s }
}

/// The error a setup failure surfaces as.
pub open spec fn setup_error(f: SetupFailure) -> SessionError {
    match f {
        SetupFailure::SharedMemory => SessionError::ResourceError,
        SetupFailure::PipeCreation => SessionError::PipeError,
        SetupFailure::Fork => SessionError::ProcessError,
    }
}

/// The whole protocol: the session an event moves `s` to.  An event that
/// does not belong to the current phase changes nothing; each phase's own
/// event either advances the machine or aborts it with the one error the
/// failure maps to.
pub open spec fn spec_step(s: Session, e: Event) -> Session {
    match e {
        Event::SetupFailed(f) => if s.phase is Created {
            spec_abort(s, setup_error(f))
        } else {
            s
        },
        Event::Spawned => if s.phase is Created {
            Session { phase: Phase::Spawned, ..s }
        } else {
            s
        },
        Event::SurplusClosed(ok) => if s.phase is Spawned {
            if ok {
                Session { phase: Phase::HandshakeWait, ..s }
            } else {
                spec_abort(s, SessionError::PipeError)
            }
        } else {
            s
        },
        Event::Hello(r) => if s.phase is HandshakeWait {
            match r {
                ReadOutcome::Bytes(_, _, _, _) => Session { phase: Phase::Ready, ..s },
                ReadOutcome::Closed => spec_abort(s, SessionError::ProtocolViolation),
                ReadOutcome::Failed => spec_abort(s, SessionError::PipeError),
            }
        } else {
            s
        },
        Event::GoSent(ok) => if s.phase is Ready {
            if ok {
                Session { phase: Phase::AwaitWorker, ..s }
            } else {
                spec_abort(s, SessionError::PipeError)
            }
        } else {
            s
        },
        Event::WorkerPid(r) => if s.phase is AwaitWorker {
            match r {
                ReadOutcome::Bytes(b0, b1, b2, b3) => Session {
                    phase: Phase::Running,
                    worker_pid: spec_i32_from_le(b0, b1, b2, b3),
                    ..s
                },
                ReadOutcome::Closed => spec_abort(s, SessionError::ProtocolViolation),
                ReadOutcome::Failed => spec_abort(s, SessionError::PipeError),
            }
        } else {
            s
        },
        Event::TerminateRequested => if s.phase is Running {
            Session { phase: Phase::Terminating, ..s }
        } else {
            s
        },
        Event::SignalSent(ok) => if s.phase is Terminating {
            if ok {
                Session { phase: Phase::AwaitStatus, ..s }
            } else {
                spec_abort(s, SessionError::ProcessError)
            }
        } else {
            s
        },
        Event::ExitStatus(r) => if s.phase is AwaitStatus {
            match r {
                ReadOutcome::Bytes(b0, b1, b2, b3) => Session {
                    phase: Phase::Reaped,
                    exit_status: spec_i32_from_le(b0, b1, b2, b3),
                    ..s
                },
                ReadOutcome::Closed => spec_abort(s, SessionError::SessionAborted),
                ReadOutcome::Failed => spec_abort(s, SessionError::PipeError),
            }
        } else {
            s
        },
        Event::ReportBuilt => if s.phase is Reaped {
            Session { phase: Phase::Harvested, ..s }
        } else {
            s
        },
    }
}

impl Session {
    /// A fresh session with nothing acquired and nothing known.
    pub fn new() -> (s: Session)
        ensures
            s == (Session {
                phase: Phase::Created,
                worker_pid: 0,
                exit_status: 0,
                error: None,
            }),
            session_wf(s),
    {
        Session { phase: Phase::Created, worker_pid: 0, exit_status: 0, error: None }
    }

    /// Feed one event to the machine.  Total: an event out of phase
    /// changes nothing, so the driver needs no guard of its own.
    pub fn step(&mut self, e: Event)
        ensures
            *final(self) == spec_step(*old(self), e),
    {
        match e {
            Event::SetupFailed(f) => {
                if matches!(self.phase, Phase::Created) {
                    self.phase = Phase::Aborted;
                    self.error = Some(
                        match f {
                            SetupFailure::SharedMemory => SessionError::ResourceError,
                            SetupFailure::PipeCreation => SessionError::PipeError,
                            SetupFailure::Fork => SessionError::ProcessError,
                        },
                    );
                }
            },
            Event::Spawned => {
                if matches!(self.phase, Phase::Created) {
                    self.phase = Phase::Spawned;
                }
            },
            Event::SurplusClosed(ok) => {
                if matches!(self.phase, Phase::Spawned) {
                    if ok {
                        self.phase = Phase::HandshakeWait;
                    } else {
                        self.phase = Phase::Aborted;
                        self.error = Some(SessionError::PipeError);
                    }
                }
            },
            Event::Hello(r) => {
                if matches!(self.phase, Phase::HandshakeWait) {
                    match r {
                        ReadOutcome::Bytes(_, _, _, _) => {
                            self.phase = Phase::Ready;
                        },
                        ReadOutcome::Closed => {
                            self.phase = Phase::Aborted;
                            self.error = Some(SessionError::ProtocolViolation);
                        },
                        ReadOutcome::Failed => {
                            self.phase = Phase::Aborted;
                            self.error = Some(SessionError::PipeError);
                        },
                    }
                }
            },
            Event::GoSent(ok) => {
                if matches!(self.phase, Phase::Ready) {
                    if ok {
                        self.phase = Phase::AwaitWorker;
                    } else {
                        self.phase = Phase::Aborted;
                        self.error = Some(SessionError::PipeError);
                    }
                }
            },
            Event::WorkerPid(r) => {
                if matches!(self.phase, Phase::AwaitWorker) {
                    match r {
                        ReadOutcome::Bytes(b0, b1, b2, b3) => {
                            self.phase = Phase::Running;
                            self.worker_pid = decode_i32_le(b0, b1, b2, b3);
                        },
                        ReadOutcome::Closed => {
                            self.phase = Phase::Aborted;
                            self.error = Some(SessionError::ProtocolViolation);
                        },
                        ReadOutcome::Failed => {
                            self.phase = Phase::Aborted;
                            self.error = Some(SessionError::PipeError);
                        },
                    }
                }
            },
            Event::TerminateRequested => {
                if matches!(self.phase, Phase::Running) {
                    self.phase = Phase::Terminating;
                }
            },
            Event::SignalSent(ok) => {
                if matches!(self.phase, Phase::Terminating) {
                    if ok {
                        self.phase = Phase::AwaitStatus;
                    } else {
                        self.phase = Phase::Aborted;
                        self.error = Some(SessionError::ProcessError);
                    }
                }
            },
            Event::ExitStatus(r) => {
                if matches!(self.phase, Phase::AwaitStatus) {
                    match r {
                        ReadOutcome::Bytes(b0, b1, b2, b3) => {
                            self.phase = Phase::Reaped;
                            self.exit_status = decode_i32_le(b0, b1, b2, b3);
                        },
                        ReadOutcome::Closed => {
                            self.phase = Phase::Aborted;
                            self.error = Some(SessionError::SessionAborted);
                        },
                        ReadOutcome::Failed => {
                            self.phase = Phase::Aborted;
                            self.error = Some(SessionError::PipeError);
                        },
                    }
                }
            },
            Event::ReportBuilt => {
                if matches!(self.phase, Phase::Reaped) {
                    self.phase = Phase::Harvested;
                }
            },
        }
    }
}

/// Every step keeps the session well formed: it records an error exactly
/// when it stands aborted.
pub proof fn lemma_step_preserves_wf(s: Session, e: Event)
    requires
        session_wf(s),
    ensures
        session_wf(spec_step(s, e)),
{
}

/// What the driving application must do next, given where the session
/// stands.
#[derive(Clone, Copy, Debug, PartialEq, Eq, Structural)]
pub enum Action {
    /// Acquire the resources and duplicate the process.
    Spawn,
    /// Close the pipe ends the parent does not own.
    CloseSurplusEnds,
    /// Block reading 4 bytes: the hello.
    AwaitHello,
    /// Write the 4-byte go token to the control pipe.
    SendGo,
    /// Block reading 4 bytes: the worker's identifier.
    AwaitWorkerPid,
    /// Block on the external termination trigger.
    AwaitTrigger,
    /// Deliver the termination signal to the worker.
    SignalWorker,
    /// Block reading 4 bytes: the relayed exit status.
    AwaitExitStatus,
    /// Copy the comparison map out and build the report.
    BuildReport,
    /// Nothing: the session completed.
    Finished,
    /// Nothing: the session failed; surface the recorded error.
    ReportFailure,
}

impl Session {
    /// The one action each phase calls for.
    pub fn required_action(&self) -> (a: Action)
        ensures
            self.phase is Created ==> a == Action::Spawn,
            self.phase is Spawned ==> a == Action::CloseSurplusEnds,
            self.phase is HandshakeWait ==> a == Action::AwaitHello,
            self.phase is Ready ==> a == Action::SendGo,
            self.phase is AwaitWorker ==> a == Action::AwaitWorkerPid,
            self.phase is Running ==> a == Action::AwaitTrigger,
            self.phase is Terminating ==> a == Action::SignalWorker,
            self.phase is AwaitStatus ==> a == Action::AwaitExitStatus,
            self.phase is Reaped ==> a == Action::BuildReport,
            self.phase is Harvested ==> a == Action::Finished,
            self.phase is Aborted ==> a == Action::ReportFailure,
    {
        match self.phase {
            Phase::Created => Action::Spawn,
            Phase::Spawned => Action::CloseSurplusEnds,
            Phase::HandshakeWait => Action::AwaitHello,
            Phase::Ready => Action::SendGo,
            Phase::AwaitWorker => Action::AwaitWorkerPid,
            Phase::Running => Action::AwaitTrigger,
            Phase::Terminating => Action::SignalWorker,
            Phase::AwaitStatus => Action::AwaitExitStatus,
            Phase::Reaped => Action::BuildReport,
            Phase::Harvested => Action::Finished,
            Phase::Aborted => Action::ReportFailure,
        }
    }
}

/// A cooperating child: a hello, the worker's identifier after the go
/// token, and an exit status after the signal drive a fresh session
/// through every phase to `Harvested`, with no error, and the identifier
/// and status recovered are exactly the little-endian words the child
/// wrote on the status pipe.
pub proof fn lemma_cooperating_child_run(
    s0: Session,
    h0: u8,
    h1: u8,
    h2: u8,
    h3: u8,
    p0: u8,
    p1: u8,
    p2: u8,
    p3: u8,
    e0: u8,
    e1: u8,
    e2: u8,
    e3: u8,
)
    requires
        s0.phase is Created,
        s0.error is None,
    ensures
        ({
            let spawned = spec_step(s0, Event::Spawned);
            let waiting = spec_step(spawned, Event::SurplusClosed(true));
            let ready = spec_step(waiting, Event::Hello(ReadOutcome::Bytes(h0, h1, h2, h3)));
            let sent = spec_step(ready, Event::GoSent(true));
            let running = spec_step(sent, Event::WorkerPid(ReadOutcome::Bytes(p0, p1, p2, p3)));
            let stopping = spec_step(running, Event::TerminateRequested);
            let signalled = spec_step(stopping, Event::SignalSent(true));
            let reaped = spec_step(signalled, Event::ExitStatus(ReadOutcome::Bytes(e0, e1, e2, e3)));
            let done = spec_step(reaped, Event::ReportBuilt);
            &&& spawned.phase is Spawned
            &&& waiting.phase is HandshakeWait
            &&& ready.phase is Ready
            &&& sent.phase is AwaitWorker
            &&& running.phase is Running
            &&& stopping.phase is Terminating
            &&& signalled.phase is AwaitStatus
            &&& reaped.phase is Reaped
            &&& done.phase is Harvested
            &&& done.error is None
            &&& done.worker_pid == spec_i32_from_le(p0, p1, p2, p3)
            &&& done.exit_status == spec_i32_from_le(e0, e1, e2, e3)
        }),
{
}

/// A child that closes its status-pipe write end before sending the hello
/// leaves the session aborted with a protocol violation, not a generic
/// read error.
pub proof fn lemma_hello_eof_is_protocol_violation(s0: Session)
    requires
        s0.phase is Created,
    ensures
        ({
            let s = spec_step(
                spec_step(spec_step(s0, Event::Spawned), Event::SurplusClosed(true)),
                Event::Hello(ReadOutcome::Closed),
            );
            &&& s.phase is Aborted
            &&& s.error == Some(SessionError::ProtocolViolation)
        }),
{
}

} // verus!
