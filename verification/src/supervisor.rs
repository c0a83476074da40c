//! Session lifecycle decisions: start, stop, status, respond.
//!
//! The supervisor owns the bridge's view of the one supervised session. The
//! operations that touch the operating system — spawning, killing, probing,
//! writing to stdin — happen outside this library; their outcomes are handed
//! in as plain values, and every decision taken on them is specified here.

use vstd::prelude::*;

use crate::bytes::dec_seq;
use crate::bytes::u64_to_dec;
use crate::bytes::append_bytes;
use crate::errors::BridgeError;
use crate::protocol::ConfirmDecision;

verus! {

/// What a non-blocking liveness probe of the child process reported.
#[derive(Debug, PartialEq, Eq)]
pub enum ProbeOutcome {
    /// The process had not exited yet.
    StillRunning,
    /// The process has exited; its handle was reaped by the probe.
    Exited,
    /// The probe itself failed; holds the OS error text.
    ProbeFailed(Vec<u8>),
}

/// The session-state event reported to the consumer.
#[derive(Debug, Clone, Copy, PartialEq, Eq, Structural)]
pub struct StatePayload {
    pub running: bool,
    pub pid: Option<u32>,
}

/// The bridge's view of the supervised session: the held process handle
/// (by pid), whether the stdin handle is retained, and the bound port.
#[derive(Debug, PartialEq, Eq)]
pub struct SupervisorState {
    pub child: Option<u32>,
    pub stdin_open: bool,
    pub port: Option<u16>,
}

/// The state with no session: no process handle, no stdin, no port.
pub open spec fn cleared_state() -> SupervisorState {
    SupervisorState { child: None, stdin_open: false, port: None }
}

/// The payload reported whenever no session is running.
pub open spec fn stopped_payload() -> StatePayload {
    StatePayload { running: false, pid: None }
}

/// What `begin_start` decides: with no held handle, starting may proceed;
/// with one, the probe decides — an exited process is reaped and starting
/// proceeds, a live one refuses with `AlreadyRunning`, a failed probe
/// surfaces the OS error. The probe is `None` exactly when no handle is held.
pub open spec fn begin_start_spec(s: SupervisorState, probe: Option<ProbeOutcome>) -> (
    SupervisorState,
    Result<(), BridgeError>,
) {
    match s.child {
        None => (s, Ok(())),
        Some(_) => match probe {
            Some(ProbeOutcome::Exited) => (
                SupervisorState { child: None, stdin_open: s.stdin_open, port: s.port },
                Ok(()),
            ),
            Some(ProbeOutcome::StillRunning) => (s, Err(BridgeError::AlreadyRunning)),
            Some(ProbeOutcome::ProbeFailed(d)) => (s, Err(BridgeError::IoFailure(d))),
            None => (s, Ok(())),
        },
    }
}

/// What `status` decides: with no held handle it reports not running and
/// clears any leftover stdin and port state; with one, the probe decides —
/// still running reports the pid, an exited process clears everything, and a
/// failed probe surfaces the OS error leaving the state untouched.
pub open spec fn status_spec(s: SupervisorState, probe: Option<ProbeOutcome>) -> (
    SupervisorState,
    Result<StatePayload, BridgeError>,
) {
    match s.child {
        None => (cleared_state(), Ok(stopped_payload())),
        Some(pid) => match probe {
            Some(ProbeOutcome::StillRunning) => (
                s,
                Ok(StatePayload { running: true, pid: Some(pid) }),
            ),
            Some(ProbeOutcome::Exited) => (cleared_state(), Ok(stopped_payload())),
            Some(ProbeOutcome::ProbeFailed(d)) => (s, Err(BridgeError::IoFailure(d))),
            None => (s, Ok(stopped_payload())),
        },
    }
}

/// The bytes `respond` writes to the worker's stdin for a decision:
/// `approve <id>\n` or `reject <id>\n`.
pub open spec fn respond_line_spec(d: ConfirmDecision) -> Seq<u8> {
    (if d.accept {
        approve_word()
    } else {
        reject_word()
    }) + seq![32u8] + dec_seq(d.id as nat) + seq![10u8]
}

/// The bytes of `approve`.
pub open spec fn approve_word() -> Seq<u8> {
    seq![97u8, 112u8, 112u8, 114u8, 111u8, 118u8, 101u8]
}

/// The bytes of `reject`.
pub open spec fn reject_word() -> Seq<u8> {
    seq![114u8, 101u8, 106u8, 101u8, 99u8, 116u8]
}

impl SupervisorState {
    /// A supervisor with no session.
    pub fn new() -> (r: Self)
        ensures
            r == cleared_state(),
    {
        SupervisorState { child: None, stdin_open: false, port: None }
    }

    /// Decides whether a new session may start, reaping a handle whose
    /// process already exited. `probe` is the liveness probe's outcome and
    /// must be present exactly when a handle is held.
    pub fn begin_start(&mut self, probe: Option<ProbeOutcome>) -> (r: Result<(), BridgeError>)
        requires
            probe.is_some() == old(self).child.is_some(),
        ensures
            *final(self) == begin_start_spec(*old(self), probe).0,
            r == begin_start_spec(*old(self), probe).1,
    {
        if self.child.is_none() {
            return Ok(());
        }
        match probe {
            Some(ProbeOutcome::Exited) => {
                self.child = None;
                Ok(())
            },
            Some(ProbeOutcome::StillRunning) => Err(BridgeError::AlreadyRunning),
            Some(ProbeOutcome::ProbeFailed(d)) => Err(BridgeError::IoFailure(d)),
            None => Ok(()),
        }
    }

    /// Records a freshly spawned session: its pid, the bound port, and
    /// whether a stdin handle was captured. Reports the session as running.
    pub fn complete_start(&mut self, pid: u32, port: u16, stdin_open: bool) -> (p: StatePayload)
        requires
            old(self).child.is_none(),
        ensures
            *final(self) == (SupervisorState {
                child: Some(pid),
                stdin_open: stdin_open,
                port: Some(port),
            }),
            p == (StatePayload { running: true, pid: Some(pid) }),
    {
        self.child = Some(pid);
        self.stdin_open = stdin_open;
        self.port = Some(port);
        StatePayload { running: true, pid: Some(pid) }
    }

    /// Clears all session state and reports not running. The process itself
    /// is terminated outside; clearing succeeds whether or not a session was
    /// active, so stopping is idempotent.
    pub fn stop(&mut self) -> (p: StatePayload)
        ensures
            *final(self) == cleared_state(),
            p == stopped_payload(),
    {
        self.child = None;
        self.stdin_open = false;
        self.port = None;
        StatePayload { running: false, pid: None }
    }

    /// Reports whether the session is running, self-healing on an observed
    /// exit. `probe` must be present exactly when a handle is held.
    pub fn status(&mut self, probe: Option<ProbeOutcome>) -> (r: Result<
        StatePayload,
        BridgeError,
    >)
        requires
            probe.is_some() == old(self).child.is_some(),
        ensures
            *final(self) == status_spec(*old(self), probe).0,
            r == status_spec(*old(self), probe).1,
    {
        match self.child {
            None => {
                self.stdin_open = false;
                self.port = None;
                Ok(StatePayload { running: false, pid: None })
            },
            Some(pid) => match probe {
                Some(ProbeOutcome::StillRunning) => Ok(
                    StatePayload { running: true, pid: Some(pid) },
                ),
                Some(ProbeOutcome::Exited) => {
                    self.child = None;
                    self.stdin_open = false;
                    self.port = None;
                    Ok(StatePayload { running: false, pid: None })
                },
                Some(ProbeOutcome::ProbeFailed(d)) => Err(BridgeError::IoFailure(d)),
                None => Ok(StatePayload { running: false, pid: None }),
            },
        }
    }

    /// Renders the stdin command line for a decision, or refuses with
    /// `NoActiveSession` when no stdin handle is held. The caller performs
    /// the actual write and flush.
    pub fn respond(&self, decision: &ConfirmDecision) -> (r: Result<Vec<u8>, BridgeError>)
        ensures
            !self.stdin_open ==> r == Err::<Vec<u8>, BridgeError>(BridgeError::NoActiveSession),
            self.stdin_open ==> (r matches Ok(line) && line@ == respond_line_spec(*decision)),
    {
        if !self.stdin_open {
            return Err(BridgeError::NoActiveSession);
        }
        let mut line: Vec<u8> = Vec::new();
        if decision.accept {
            line.push(97);
            line.push(112);
            line.push(112);
            line.push(114);
            line.push(111);
            line.push(118);
            line.push(101);
            assert(line@ =~= approve_word());
        } else {
            line.push(114);
            line.push(101);
            line.push(106);
            line.push(101);
            line.push(99);
            line.push(116);
            assert(line@ =~= reject_word());
        }
        line.push(32);
        let digits = u64_to_dec(decision.id);
        append_bytes(&mut line, digits.as_slice());
        line.push(10);
        assert(line@ =~= respond_line_spec(*decision));
        Ok(line)
    }
}

/// Validates a listen request before anything is spawned: the port must be
/// in 1-65535 and the TLS certificate and key paths must come together.
pub fn validate_listen_request(port: u16, has_tls_cert: bool, has_tls_key: bool) -> (r: Result<
    (),
    BridgeError,
>)
    ensures
        port == 0 ==> r == Err::<(), BridgeError>(BridgeError::InvalidPort),
        port != 0 && has_tls_cert != has_tls_key ==> r == Err::<(), BridgeError>(
            BridgeError::TlsConfigMismatch,
        ),
        port != 0 && has_tls_cert == has_tls_key ==> r == Ok::<(), BridgeError>(()),
{
    if port == 0 {
        Err(BridgeError::InvalidPort)
    } else if has_tls_cert != has_tls_key {
        Err(BridgeError::TlsConfigMismatch)
    } else {
        Ok(())
    }
}

/// Stopping twice in a row is idempotent: the second stop starts from the
/// cleared state, leaves it cleared, and again reports not running.
pub proof fn lemma_stop_idempotent(s: SupervisorState)
    ensures
        stop_spec(stop_spec(s).0).0 == stop_spec(s).0,
        stop_spec(stop_spec(s).0).1 == stopped_payload(),
{
}

/// What `stop` does to any state: it clears it and reports not running.
pub open spec fn stop_spec(s: SupervisorState) -> (SupervisorState, StatePayload) {
    (cleared_state(), stopped_payload())
}

/// Starting while the session's process is still alive is refused with
/// `AlreadyRunning`, and the session state is left untouched.
pub proof fn lemma_start_while_running_refused(s: SupervisorState)
    requires
        s.child.is_some(),
    ensures
        begin_start_spec(s, Some(ProbeOutcome::StillRunning)).1 == Err::<(), BridgeError>(
            BridgeError::AlreadyRunning,
        ),
        begin_start_spec(s, Some(ProbeOutcome::StillRunning)).0 == s,
{
}

/// Once the process has exited on its own, the next status call observes it:
/// it reports not running and clears the stored stdin and port state.
pub proof fn lemma_status_self_heals(s: SupervisorState)
    requires
        s.child.is_some(),
    ensures
        status_spec(s, Some(ProbeOutcome::Exited)).0 == cleared_state(),
        status_spec(s, Some(ProbeOutcome::Exited)).1 == Ok::<StatePayload, BridgeError>(
            stopped_payload(),
        ),
{
}

} // verus!
