//! The backend supervisor's state and the readiness-poll decision: adoption
//! versus spawning, ownership of the spawned process, and the verdict of each
//! poll round.

use vstd::prelude::*;
use vstd::string::*;
use crate::error::ExitReport;

verus! {

/// The outcome of one liveness probe, kept as a tri-state so call sites can
/// tell "not up yet" from "up but reporting an error".
#[derive(Debug, Clone, PartialEq, Eq)]
pub enum ProbeResult {
    /// The endpoint answered with a non-error status.
    Reachable,
    /// Nothing answered: network failure or connection refused.
    Unreachable,
    /// The endpoint answered, but with an error status.
    BackendError { status: u16, body: String },
}

/// The liveness policy: any answer with a status below 500 shows the backend
/// is up, even a client error; a server error or no answer does not.
pub open spec fn probe_live(p: ProbeResult) -> bool {
    match p {
        ProbeResult::Reachable => true,
        ProbeResult::Unreachable => false,
        ProbeResult::BackendError { status, .. } => status < 500,
    }
}

/// Classifies a probe's raw outcome: no answer is unreachable, a status of
/// 400 or above is a backend-reported error, anything else is reachable.
pub fn classify_probe(outcome: Option<(u16, String)>) -> (r: ProbeResult)
    ensures
        outcome is None ==> r == ProbeResult::Unreachable,
        (outcome matches Some((status, body)) ==> (if status >= 400 {
            r matches ProbeResult::BackendError { status: s2, body: b2 } && s2 == status && b2@
                == body@
        } else {
            r == ProbeResult::Reachable
        })),
{
    match outcome {
        None => ProbeResult::Unreachable,
        Some((status, body)) => {
            if status >= 400 {
                ProbeResult::BackendError { status, body }
            } else {
                ProbeResult::Reachable
            }
        },
    }
}

/// Whether this probe outcome counts as the backend being up.
pub fn probe_is_live(p: &ProbeResult) -> (r: bool)
    ensures
        r == probe_live(*p),
{
    match p {
        ProbeResult::Reachable => true,
        ProbeResult::Unreachable => false,
        ProbeResult::BackendError { status, .. } => *status < 500,
    }
}

/// The supervisor's view of the backend: where it listens, whether this run
/// started it, and whether this run still owns the started process.
#[derive(Debug, Clone, PartialEq, Eq)]
pub struct Supervisor {
    pub host: String,
    pub port: u16,
    pub started_here: bool,
    pub owns_process: bool,
}

impl Supervisor {
    /// A process is owned exactly when this run started the backend; an
    /// adopted backend is never owned, and a detached one no longer is.
    pub open spec fn wf(self) -> bool {
        self.started_here == self.owns_process
    }

    /// Adopts a backend that was already reachable: nothing was started, and
    /// nothing will ever be terminated.
    pub fn adopted(host: String, port: u16) -> (s: Self)
        ensures
            s.host@ == host@,
            s.port == port,
            !s.started_here,
            !s.owns_process,
            s.wf(),
    {
        Supervisor { host, port, started_here: false, owns_process: false }
    }

    /// Records that this run spawned the backend and owns the process.
    pub fn spawned(host: String, port: u16) -> (s: Self)
        ensures
            s.host@ == host@,
            s.port == port,
            s.started_here,
            s.owns_process,
            s.wf(),
    {
        Supervisor { host, port, started_here: true, owns_process: true }
    }

    /// Whether cleanup must terminate and await the backend process: only a
    /// process this run started and still owns.
    pub fn should_terminate(&self) -> (r: bool)
        ensures
            r == (self.started_here && self.owns_process),
    {
        self.started_here && self.owns_process
    }

    /// Hands ownership of the process away — the explicit escape hatch of
    /// serve-only mode. After this, cleanup terminates nothing.
    pub fn detach(&mut self)
        ensures
            final(self).host@ == old(self).host@,
            final(self).port == old(self).port,
            !final(self).started_here,
            !final(self).owns_process,
            final(self).wf(),
    {
        self.started_here = false;
        self.owns_process = false;
    }
}

/// The verdict of one readiness-poll round.
#[derive(Debug, Clone, Copy, PartialEq, Eq)]
pub enum PollVerdict {
    /// The backend answered: the wait is over.
    Ready,
    /// The owned process already exited: the wait fails at once with its
    /// exit report.
    PrematureExit { report: ExitReport },
    /// The deadline elapsed while the backend stayed unreachable.
    TimedOut,
    /// Nothing decisive yet: sleep one poll interval and try again.
    KeepWaiting,
}

/// The poll policy for one round, in the order the checks run: a live probe
/// wins; otherwise an exited owned process fails the wait at once; otherwise
/// an elapsed deadline fails it; otherwise the wait goes on.
pub open spec fn poll_verdict(
    live: bool,
    owned_exit: Option<ExitReport>,
    elapsed_ms: u64,
    timeout_ms: u64,
) -> PollVerdict {
    if live {
        PollVerdict::Ready
    } else if owned_exit is Some {
        PollVerdict::PrematureExit { report: owned_exit.unwrap() }
    } else if elapsed_ms > timeout_ms {
        PollVerdict::TimedOut
    } else {
        PollVerdict::KeepWaiting
    }
}

/// Decides one readiness-poll round. `owned_exit` is the exit report of the
/// owned process if a non-blocking check found it already exited, and `None`
/// both when it still runs and when no process is owned (an adopted backend
/// skips the check).
pub fn poll_step(
    live: bool,
    owned_exit: Option<ExitReport>,
    elapsed_ms: u64,
    timeout_ms: u64,
) -> (v: PollVerdict)
    ensures
        v == poll_verdict(live, owned_exit, elapsed_ms, timeout_ms),
{
    if live {
        PollVerdict::Ready
    } else {
        match owned_exit {
            Some(report) => PollVerdict::PrematureExit { report },
            None => {
                if elapsed_ms > timeout_ms {
                    PollVerdict::TimedOut
                } else {
                    PollVerdict::KeepWaiting
                }
            },
        }
    }
}

/// An owned process found exited fails the wait at that very round, whatever
/// the elapsed time: the wait never sits out the rest of the deadline, and
/// the verdict carries the process's own exit report.
pub proof fn lemma_premature_exit_is_immediate(
    report: ExitReport,
    elapsed_ms: u64,
    timeout_ms: u64,
)
    ensures
        poll_verdict(false, Some(report), elapsed_ms, timeout_ms) == (PollVerdict::PrematureExit {
            report,
        }),
{
}

/// The deadline governs the wait tightly: a round times out exactly when the
/// elapsed time has passed the deadline, and keeps waiting — for one more
/// poll interval at most — exactly when it has not. So a timeout is never
/// reported early, and never later than one interval past the deadline.
pub proof fn lemma_timeout_is_tight(
    owned_exit: Option<ExitReport>,
    elapsed_ms: u64,
    timeout_ms: u64,
)
    ensures
        poll_verdict(false, owned_exit, elapsed_ms, timeout_ms) == PollVerdict::TimedOut
            <==> owned_exit is None && elapsed_ms > timeout_ms,
        poll_verdict(false, owned_exit, elapsed_ms, timeout_ms) == PollVerdict::KeepWaiting
            <==> owned_exit is None && elapsed_ms <= timeout_ms,
{
}

} // verus!
