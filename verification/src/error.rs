//! The run's error taxonomy. Every failure the bridge can decide on is a
//! variant here, and each renders to a fixed human-readable message.

use vstd::prelude::*;
use vstd::string::*;
use crate::text::{dec_seq, int_dec_seq, i32_decimal, u64_decimal};

verus! {

/// How a finished process ended: whether it succeeded, and its exit code if
/// it exited with one (a process ended by a signal has none).
#[derive(Debug, Clone, Copy, PartialEq, Eq)]
pub struct ExitReport {
    pub success: bool,
    pub code: Option<i32>,
}

/// The rendering of an exit: the code in decimal, or `signal` when the
/// process was ended without one.
pub open spec fn exit_seq(report: ExitReport) -> Seq<char> {
    match report.code {
        Some(c) => int_dec_seq(c as int),
        None => "signal"@,
    }
}

/// Renders an exit report for a message.
pub fn exit_string(report: &ExitReport) -> (r: String)
    ensures
        r@ == exit_seq(*report),
{
    match report.code {
        Some(c) => i32_decimal(c),
        None => String::from_str("signal"),
    }
}

/// Why resolving the downstream executable failed.
#[derive(Debug, Clone, PartialEq, Eq)]
pub enum ResolveError {
    /// The given path or name was empty.
    EmptyInput,
    /// The input named a directory, but none of the candidate executable
    /// names exists in it as a file.
    NoCandidateInDir { dir: String },
    /// The input named neither an existing file nor anything findable on the
    /// search path.
    NotFound { input: String },
}

/// Everything that can abort a run. Each variant is terminal: the run stops
/// at the first failure and cleanup follows.
#[derive(Debug, Clone, PartialEq, Eq)]
pub enum RunError {
    /// The backend process could not be created.
    SpawnFailure { message: String },
    /// The owned backend process exited before ever becoming reachable.
    PrematureExit { report: ExitReport },
    /// The readiness deadline elapsed while the backend stayed unreachable.
    ReadinessTimeout { host: String, port: u16 },
    /// The model pull subprocess could not be run at all.
    PullStartFailure { message: String },
    /// The model pull subprocess ran but failed.
    PullFailure { report: ExitReport },
    /// The warm-up request could not be sent.
    WarmupTransportFailure { message: String },
    /// The warm-up request came back with an error status.
    WarmupHttpFailure { status: u16, body: String },
    /// The warm-up response was not decodable JSON.
    WarmupDecodeFailure,
    /// The warm-up response decoded, but carried an embedded error field.
    WarmupBackendError { message: String },
    /// The downstream executable could not be resolved.
    Resolver { error: ResolveError },
    /// The downstream tool could not be started.
    LaunchFailure { message: String },
    /// The downstream tool ran but exited unsuccessfully.
    DownstreamFailure { report: ExitReport },
}

/// The message each resolver failure renders to.
pub open spec fn resolve_message_seq(e: ResolveError) -> Seq<char> {
    match e {
        ResolveError::EmptyInput => "`--codex-bin` cannot be empty"@,
        ResolveError::NoCandidateInDir { dir } => "`--codex-bin` points at directory `"@ + dir@
            + "` but no Codex executable was found inside"@,
        ResolveError::NotFound { input } => "failed to locate Codex executable at `"@ + input@
            + "` or on PATH"@,
    }
}

/// The message each run error renders to.
pub open spec fn message_seq(e: RunError) -> Seq<char> {
    match e {
        RunError::SpawnFailure { message } => "failed to spawn `ollama serve`: "@ + message@,
        RunError::PrematureExit { report } => "`ollama serve` exited prematurely with status "@
            + exit_seq(report),
        RunError::ReadinessTimeout { host, port } => "timed out waiting for `ollama serve` to become ready on "@
            + host@ + ":"@ + dec_seq(port as nat),
        RunError::PullStartFailure { message } => "failed to run `ollama pull`: "@ + message@,
        RunError::PullFailure { report } => "`ollama pull` exited with status "@ + exit_seq(report),
        RunError::WarmupTransportFailure { message } => "failed to send warm-up request to Ollama: "@
            + message@,
        RunError::WarmupHttpFailure { status, body } => "warm-up request failed with HTTP "@
            + dec_seq(status as nat) + ": "@ + body@,
        RunError::WarmupDecodeFailure => "failed to decode warm-up response from Ollama"@,
        RunError::WarmupBackendError { message } => "Ollama warm-up error: "@ + message@,
        RunError::Resolver { error } => resolve_message_seq(error),
        RunError::LaunchFailure { message } => "failed to launch Codex: "@ + message@,
        RunError::DownstreamFailure { report } => "Codex exited with status "@ + exit_seq(report),
    }
}

impl ResolveError {
    /// Renders this failure as its message.
    pub fn message(&self) -> (r: String)
        ensures
            r@ == resolve_message_seq(*self),
    {
        match self {
            ResolveError::EmptyInput => String::from_str("`--codex-bin` cannot be empty"),
            ResolveError::NoCandidateInDir { dir } => {
                let mut s = String::from_str("`--codex-bin` points at directory `");
                s.append(dir.as_str());
                s.append("` but no Codex executable was found inside");
                proof {
                    assert(s@ =~= resolve_message_seq(*self));
                }
                s
            },
            ResolveError::NotFound { input } => {
                let mut s = String::from_str("failed to locate Codex executable at `");
                s.append(input.as_str());
                s.append("` or on PATH");
                proof {
                    assert(s@ =~= resolve_message_seq(*self));
                }
                s
            },
        }
    }
}

impl RunError {
    /// Renders this failure as its message.
    pub fn message(&self) -> (r: String)
        ensures
            r@ == message_seq(*self),
    {
        match self {
            RunError::SpawnFailure { message } => {
                let mut s = String::from_str("failed to spawn `ollama serve`: ");
                s.append(message.as_str());
                proof {
                    assert(s@ =~= message_seq(*self));
                }
                s
            },
            RunError::PrematureExit { report } => {
                let mut s = String::from_str("`ollama serve` exited prematurely with status ");
                let e = exit_string(report);
                s.append(e.as_str());
                proof {
                    assert(s@ =~= message_seq(*self));
                }
                s
            },
            RunError::ReadinessTimeout { host, port } => {
                let mut s = String::from_str("timed out waiting for `ollama serve` to become ready on ");
                s.append(host.as_str());
                s.append(":");
                let p = u64_decimal(*port as u64);
                s.append(p.as_str());
                proof {
                    assert(s@ =~= message_seq(*self));
                }
                s
            },
            RunError::PullStartFailure { message } => {
                let mut s = String::from_str("failed to run `ollama pull`: ");
                s.append(message.as_str());
                proof {
                    assert(s@ =~= message_seq(*self));
                }
                s
            },
            RunError::PullFailure { report } => {
                let mut s = String::from_str("`ollama pull` exited with status ");
                let e = exit_string(report);
                s.append(e.as_str());
                proof {
                    assert(s@ =~= message_seq(*self));
                }
                s
            },
            RunError::WarmupTransportFailure { message } => {
                let mut s = String::from_str("failed to send warm-up request to Ollama: ");
                s.append(message.as_str());
                proof {
                    assert(s@ =~= message_seq(*self));
                }
                s
            },
            RunError::WarmupHttpFailure { status, body } => {
                let mut s = String::from_str("warm-up request failed with HTTP ");
                let p = u64_decimal(*status as u64);
                s.append(p.as_str());
                s.append(": ");
                s.append(body.as_str());
                proof {
                    assert(s@ =~= message_seq(*self));
                }
                s
            },
            RunError::WarmupDecodeFailure => String::from_str(
                "failed to decode warm-up response from Ollama",
            ),
            RunError::WarmupBackendError { message } => {
                let mut s = String::from_str("Ollama warm-up error: ");
                s.append(message.as_str());
                proof {
                    assert(s@ =~= message_seq(*self));
                }
                s
            },
            RunError::Resolver { error } => error.message(),
            RunError::LaunchFailure { message } => {
                let mut s = String::from_str("failed to launch Codex: ");
                s.append(message.as_str());
                proof {
                    assert(s@ =~= message_seq(*self));
                }
                s
            },
            RunError::DownstreamFailure { report } => {
                let mut s = String::from_str("Codex exited with status ");
                let e = exit_string(report);
                s.append(e.as_str());
                proof {
                    assert(s@ =~= message_seq(*self));
                }
                s
            },
        }
    }
}

} // verus!
