//! The whole run as one verified state machine: an ordered sequence of
//! fallible steps — adopt or spawn, poll, pull, warm up, resolve, launch —
//! with short-circuit failure. The machine emits the next outside action to
//! perform; the caller performs it and feeds the observed outcome back in as
//! an event. Every decision between the two lives here, under contract.

use vstd::prelude::*;
use vstd::string::*;
use crate::endpoints::{
    generate_url, generate_url_seq, launch_env, launch_env_ok, spawn_env, spawn_env_ok, tags_url,
    tags_url_seq, POLL_INTERVAL_MS,
};
use crate::error::{ExitReport, ResolveError, RunError};
use crate::json::{warm_body, warm_body_seq};
use crate::resolver::{candidate_name, candidate_str, joined, path_join, CANDIDATE_COUNT};
use crate::resolver::ResolveQuery;
use crate::supervisor::{probe_is_live, probe_live, ProbeResult, Supervisor};
use crate::supervisor::{poll_verdict, PollVerdict};
use crate::warmup::{warm_classified, warm_decoded_spec, warm_ok, warm_reply_verdict};

verus! {

/// Everything a run is configured with. Immutable once constructed.
#[derive(Debug, PartialEq, Eq)]
pub struct Config {
    /// Path, directory or bare name of the downstream executable.
    pub codex_bin: String,
    /// Trailing arguments forwarded verbatim to the downstream tool.
    pub codex_args: Vec<String>,
    /// Path or name of the backend executable.
    pub ollama_bin: String,
    /// The model to pull and warm.
    pub model: String,
    /// Host interface of the backend.
    pub host: String,
    /// Port of the backend.
    pub port: u16,
    /// Credential exposed to the downstream tool.
    pub api_key: String,
    /// How long to wait for the backend to become ready, in milliseconds.
    pub readiness_timeout_ms: u64,
    /// Assume the model is already present: skip the pull step.
    pub skip_pull: bool,
    /// Skip the warm-up request.
    pub no_warmup: bool,
    /// Stop after readiness and warm-up, leaving the backend running.
    pub serve_only: bool,
    /// Prompt sent by the warm-up request.
    pub warm_prompt: String,
}

/// A successful run's two shapes.
#[derive(Debug, Clone, Copy, PartialEq, Eq, Structural)]
pub enum Completion {
    /// The downstream tool ran and exited successfully.
    Launched,
    /// Serve-only mode: the backend is ready and stays running; nothing was
    /// launched.
    ServeOnly,
}

/// What the machine asks the caller to do next.
#[derive(Debug, PartialEq, Eq)]
pub enum Action {
    /// Issue a short-timeout liveness GET against this URL.
    Probe { url: String },
    /// Spawn the backend: the program, its subcommand, and the environment
    /// to inject, with stdin discarded and stdout/stderr inherited.
    Spawn { program: String, subcommand: String, env: Vec<(String, String)> },
    /// Check, without blocking, whether the owned process has exited, and
    /// measure the elapsed wait.
    CheckProcess,
    /// Sleep this many milliseconds.
    Sleep { ms: u64 },
    /// Run the model pull subprocess to completion.
    Pull { program: String, subcommand: String, model: String },
    /// POST this body to this URL with the warm-up timeouts.
    Warm { url: String, body: String },
    /// Answer a filesystem or search-path question of the resolver.
    Ask { query: ResolveQuery },
    /// Launch the downstream tool with streams inherited and block until it
    /// exits.
    Launch { program: String, args: Vec<String>, env: Vec<(String, String)> },
    /// The run is over with this result; cleanup (if owed) follows.
    Finish { result: Result<Completion, RunError> },
}

/// What the caller observed when carrying out the last action.
#[derive(Debug, PartialEq, Eq)]
pub enum Event {
    /// The outcome of a liveness probe.
    Probe { result: ProbeResult },
    /// Whether the backend spawn succeeded, with the OS error text when not.
    SpawnResult { outcome: Result<(), String> },
    /// The non-blocking exit check: the exit report if the owned process has
    /// already exited, and the wait elapsed so far in milliseconds.
    ProcessStatus { exit: Option<ExitReport>, elapsed_ms: u64 },
    /// The poll-interval sleep finished.
    Slept,
    /// How the pull subprocess ended, or why it could not be run.
    PullResult { outcome: Result<ExitReport, String> },
    /// The warm-up reply's status and body, or why it could not be sent.
    WarmResult { outcome: Result<(u16, String), String> },
    /// Whether the queried path is an existing directory.
    IsDir { yes: bool },
    /// Whether the queried path is an existing file.
    IsFile { yes: bool },
    /// What the search path yielded for the queried name.
    PathFound { found: Option<String> },
    /// How the downstream tool ended, or why it could not be started.
    LaunchResult { outcome: Result<ExitReport, String> },
}

/// Where the run stands between events.
#[derive(Debug, Clone, Copy, PartialEq, Eq)]
pub enum Phase {
    /// Probing the configured address for an already-running backend.
    InitialProbe,
    /// Spawning the backend.
    Spawning,
    /// Poll round: waiting for the probe's outcome.
    PollProbe,
    /// Poll round: waiting for the exit check.
    PollCheck,
    /// Poll round: sleeping one interval.
    Sleeping,
    /// Waiting for the pull subprocess.
    Pulling,
    /// Waiting for the warm-up reply.
    Warming,
    /// Resolver: asked whether the input is a directory.
    ResolveDir,
    /// Resolver: asked whether this candidate exists in the directory.
    ResolveCandidate { index: usize },
    /// Resolver: asked whether the input is a file.
    ResolveFile,
    /// Resolver: asked the search path.
    ResolveSearch,
    /// Waiting for the downstream tool to exit.
    Launching,
    /// The run is over.
    Done,
}

/// The run machine: configuration, the supervisor's ownership state, and the
/// current phase.
#[derive(Debug, PartialEq, Eq)]
pub struct Runner {
    pub config: Config,
    pub sup: Supervisor,
    pub phase: Phase,
}

/// The supervisor state carries over a step unchanged.
pub open spec fn sup_unchanged(pre: Supervisor, post: Supervisor) -> bool {
    &&& post.started_here == pre.started_here
    &&& post.owns_process == pre.owns_process
    &&& post.host@ == pre.host@
    &&& post.port == pre.port
}

/// The supervisor gave its ownership away (the serve-only escape hatch).
pub open spec fn sup_detached(pre: Supervisor, post: Supervisor) -> bool {
    &&& !post.started_here
    &&& !post.owns_process
    &&& post.host@ == pre.host@
    &&& post.port == pre.port
}

pub open spec fn is_probe_action(a: Action, host: Seq<char>, port: u16) -> bool {
    a matches Action::Probe { url } && url@ == tags_url_seq(host, port)
}

pub open spec fn is_spawn_action(a: Action, program: Seq<char>, host: Seq<char>, port: u16) -> bool {
    a matches Action::Spawn { program: p, subcommand, env } && p@ == program && subcommand@
        == "serve"@ && spawn_env_ok(env@, host, port)
}

pub open spec fn is_pull_action(a: Action, program: Seq<char>, model: Seq<char>) -> bool {
    a matches Action::Pull { program: p, subcommand, model: m } && p@ == program && subcommand@
        == "pull"@ && m@ == model
}

pub open spec fn is_warm_action(
    a: Action,
    host: Seq<char>,
    port: u16,
    model: Seq<char>,
    prompt: Seq<char>,
) -> bool {
    a matches Action::Warm { url, body } && url@ == generate_url_seq(host, port) && body@
        == warm_body_seq(model, prompt)
}

pub open spec fn is_ask_is_dir(a: Action, path: Seq<char>) -> bool {
    a matches Action::Ask { query: ResolveQuery::IsDir { path: p } } && p@ == path
}

pub open spec fn is_ask_is_file(a: Action, path: Seq<char>) -> bool {
    a matches Action::Ask { query: ResolveQuery::IsFile { path: p } } && p@ == path
}

pub open spec fn is_ask_path_search(a: Action, name: Seq<char>) -> bool {
    a matches Action::Ask { query: ResolveQuery::PathSearch { name: n } } && n@ == name
}

pub open spec fn is_launch_action(
    a: Action,
    program: Seq<char>,
    args: Seq<String>,
    host: Seq<char>,
    port: u16,
    api_key: Seq<char>,
) -> bool {
    a matches Action::Launch { program: p, args: ar, env } && p@ == program && args_match(ar@, args)
        && launch_env_ok(env@, host, port, api_key)
}

impl Runner {
    /// Phase-dependent well-formedness: the supervisor matches the
    /// configured address and owns a process exactly when this run started
    /// the backend; poll rounds only happen for a backend started here; a
    /// candidate index is always in range; the resolver only runs on
    /// non-empty input.
    pub open spec fn wf(self) -> bool {
        &&& self.sup.wf()
        &&& self.sup.host@ == self.config.host@
        &&& self.sup.port == self.config.port
        &&& (self.phase == Phase::PollProbe || self.phase == Phase::PollCheck || self.phase
            == Phase::Sleeping ==> self.sup.started_here)
        &&& (self.phase matches Phase::ResolveCandidate { index } ==> index < CANDIDATE_COUNT)
        &&& (self.is_resolving() ==> self.config.codex_bin@.len() > 0)
    }

    pub open spec fn is_resolving(self) -> bool {
        match self.phase {
            Phase::ResolveDir => true,
            Phase::ResolveCandidate { .. } => true,
            Phase::ResolveFile => true,
            Phase::ResolveSearch => true,
            _ => false,
        }
    }

    /// Which event each phase is waiting for.
    pub open spec fn accepts(self, event: Event) -> bool {
        match self.phase {
            Phase::InitialProbe => event matches Event::Probe { .. },
            Phase::Spawning => event matches Event::SpawnResult { .. },
            Phase::PollProbe => event matches Event::Probe { .. },
            Phase::PollCheck => event matches Event::ProcessStatus { .. },
            Phase::Sleeping => event matches Event::Slept,
            Phase::Pulling => event matches Event::PullResult { .. },
            Phase::Warming => event matches Event::WarmResult { .. },
            Phase::ResolveDir => event matches Event::IsDir { .. },
            Phase::ResolveCandidate { .. } => event matches Event::IsFile { .. },
            Phase::ResolveFile => event matches Event::IsFile { .. },
            Phase::ResolveSearch => event matches Event::PathFound { .. },
            Phase::Launching => event matches Event::LaunchResult { .. },
            Phase::Done => false,
        }
    }
}

/// The step ended the run; configuration and supervisor carry over.
pub open spec fn settled(pre: Runner, post: Runner) -> bool {
    &&& post.config == pre.config
    &&& sup_unchanged(pre.sup, post.sup)
    &&& post.phase == Phase::Done
}

/// After the backend is ready: pull unless skipped, then on to warm-up.
pub open spec fn ready_chain(pre: Runner, post: Runner, a: Action) -> bool {
    if !pre.config.skip_pull {
        &&& post.config == pre.config
        &&& sup_unchanged(pre.sup, post.sup)
        &&& post.phase == Phase::Pulling
        &&& is_pull_action(a, pre.config.ollama_bin@, pre.config.model@)
    } else {
        warm_chain(pre, post, a)
    }
}

/// After the pull (or with it skipped): warm up unless skipped.
pub open spec fn warm_chain(pre: Runner, post: Runner, a: Action) -> bool {
    if !pre.config.no_warmup {
        &&& post.config == pre.config
        &&& sup_unchanged(pre.sup, post.sup)
        &&& post.phase == Phase::Warming
        &&& is_warm_action(
            a,
            pre.config.host@,
            pre.config.port,
            pre.config.model@,
            pre.config.warm_prompt@,
        )
    } else {
        finish_chain(pre, post, a)
    }
}

/// After the warm-up (or with it skipped): in serve-only mode the supervisor
/// detaches and the run ends successfully without launching; otherwise the
/// resolver starts, failing on the spot — before any question — when the
/// configured name is empty.
pub open spec fn finish_chain(pre: Runner, post: Runner, a: Action) -> bool {
    if pre.config.serve_only {
        &&& post.config == pre.config
        &&& sup_detached(pre.sup, post.sup)
        &&& post.phase == Phase::Done
        &&& a == (Action::Finish { result: Ok(Completion::ServeOnly) })
    } else if pre.config.codex_bin@.len() == 0 {
        &&& settled(pre, post)
        &&& a == (Action::Finish {
            result: Err(RunError::Resolver { error: ResolveError::EmptyInput }),
        })
    } else {
        &&& post.config == pre.config
        &&& sup_unchanged(pre.sup, post.sup)
        &&& post.phase == Phase::ResolveDir
        &&& is_ask_is_dir(a, pre.config.codex_bin@)
    }
}

/// The executable is resolved: launch it with the forwarded arguments and
/// the injected environment.
pub open spec fn launch_chain(pre: Runner, post: Runner, a: Action, program: Seq<char>) -> bool {
    &&& post.config == pre.config
    &&& sup_unchanged(pre.sup, post.sup)
    &&& post.phase == Phase::Launching
    &&& is_launch_action(
        a,
        program,
        pre.config.codex_args@,
        pre.config.host@,
        pre.config.port,
        pre.config.api_key@,
    )
}

/// The machine's whole transition relation: what one step does, for every
/// phase and event it accepts.
pub open spec fn transition(pre: Runner, event: Event, post: Runner, a: Action) -> bool {
    match pre.phase {
        Phase::InitialProbe => event matches Event::Probe { result } && (if probe_live(result) {
            ready_chain(pre, post, a)
        } else {
            &&& post.config == pre.config
            &&& sup_unchanged(pre.sup, post.sup)
            &&& post.phase == Phase::Spawning
            &&& is_spawn_action(a, pre.config.ollama_bin@, pre.config.host@, pre.config.port)
        }),
        Phase::Spawning => event matches Event::SpawnResult { outcome } && (match outcome {
            Ok(_) => {
                &&& post.config == pre.config
                &&& post.sup.started_here
                &&& post.sup.owns_process
                &&& post.sup.host@ == pre.config.host@
                &&& post.sup.port == pre.config.port
                &&& post.phase == Phase::PollProbe
                &&& is_probe_action(a, pre.config.host@, pre.config.port)
            },
            Err(m) => settled(pre, post) && (a matches Action::Finish {
                result: Err(RunError::SpawnFailure { message }),
            } && message@ == m@),
        }),
        Phase::PollProbe => event matches Event::Probe { result } && (if probe_live(result) {
            ready_chain(pre, post, a)
        } else {
            &&& post.config == pre.config
            &&& sup_unchanged(pre.sup, post.sup)
            &&& post.phase == Phase::PollCheck
            &&& a == Action::CheckProcess
        }),
        Phase::PollCheck => event matches Event::ProcessStatus { exit, elapsed_ms } && (match
            poll_verdict(false, exit, elapsed_ms, pre.config.readiness_timeout_ms) {
            PollVerdict::Ready => false,
            PollVerdict::PrematureExit { report } => settled(pre, post) && a
                == (Action::Finish { result: Err(RunError::PrematureExit { report }) }),
            PollVerdict::TimedOut => settled(pre, post) && (a matches Action::Finish {
                result: Err(RunError::ReadinessTimeout { host, port }),
            } && host@ == pre.config.host@ && port == pre.config.port),
            PollVerdict::KeepWaiting => {
                &&& post.config == pre.config
                &&& sup_unchanged(pre.sup, post.sup)
                &&& post.phase == Phase::Sleeping
                &&& a == (Action::Sleep { ms: POLL_INTERVAL_MS })
            },
        }),
        Phase::Sleeping => event matches Event::Slept && {
            &&& post.config == pre.config
            &&& sup_unchanged(pre.sup, post.sup)
            &&& post.phase == Phase::PollProbe
            &&& is_probe_action(a, pre.config.host@, pre.config.port)
        },
        Phase::Pulling => event matches Event::PullResult { outcome } && (match outcome {
            Ok(report) => if report.success {
                warm_chain(pre, post, a)
            } else {
                settled(pre, post) && a == (Action::Finish {
                    result: Err(RunError::PullFailure { report }),
                })
            },
            Err(m) => settled(pre, post) && (a matches Action::Finish {
                result: Err(RunError::PullStartFailure { message }),
            } && message@ == m@),
        }),
        Phase::Warming => event matches Event::WarmResult { outcome } && (match outcome {
            Ok((status, body)) => if warm_ok(status, body@) {
                finish_chain(pre, post, a)
            } else {
                settled(pre, post) && (a matches Action::Finish { result: Err(e) }
                    && warm_classified(Err(e), status, body@, warm_decoded_spec(body@)))
            },
            Err(m) => settled(pre, post) && (a matches Action::Finish {
                result: Err(RunError::WarmupTransportFailure { message }),
            } && message@ == m@),
        }),
        Phase::ResolveDir => event matches Event::IsDir { yes } && (if yes {
            &&& post.config == pre.config
            &&& sup_unchanged(pre.sup, post.sup)
            &&& post.phase == (Phase::ResolveCandidate { index: 0 })
            &&& is_ask_is_file(a, joined(pre.config.codex_bin@, candidate_name(0)))
        } else {
            &&& post.config == pre.config
            &&& sup_unchanged(pre.sup, post.sup)
            &&& post.phase == Phase::ResolveFile
            &&& is_ask_is_file(a, pre.config.codex_bin@)
        }),
        Phase::ResolveCandidate { index } => event matches Event::IsFile { yes } && (if yes {
            launch_chain(pre, post, a, joined(pre.config.codex_bin@, candidate_name(index as int)))
        } else if index + 1 < CANDIDATE_COUNT {
            &&& post.config == pre.config
            &&& sup_unchanged(pre.sup, post.sup)
            &&& post.phase == (Phase::ResolveCandidate { index: (index + 1) as usize })
            &&& is_ask_is_file(a, joined(pre.config.codex_bin@, candidate_name(index + 1)))
        } else {
            settled(pre, post) && (a matches Action::Finish {
                result: Err(RunError::Resolver { error: ResolveError::NoCandidateInDir { dir } }),
            } && dir@ == pre.config.codex_bin@)
        }),
        Phase::ResolveFile => event matches Event::IsFile { yes } && (if yes {
            launch_chain(pre, post, a, pre.config.codex_bin@)
        } else {
            &&& post.config == pre.config
            &&& sup_unchanged(pre.sup, post.sup)
            &&& post.phase == Phase::ResolveSearch
            &&& is_ask_path_search(a, pre.config.codex_bin@)
        }),
        Phase::ResolveSearch => event matches Event::PathFound { found } && (match found {
            Some(p) => launch_chain(pre, post, a, p@),
            None => settled(pre, post) && (a matches Action::Finish {
                result: Err(RunError::Resolver { error: ResolveError::NotFound { input } }),
            } && input@ == pre.config.codex_bin@),
        }),
        Phase::Launching => event matches Event::LaunchResult { outcome } && (match outcome {
            Ok(report) => if report.success {
                settled(pre, post) && a == (Action::Finish { result: Ok(Completion::Launched) })
            } else {
                settled(pre, post) && a == (Action::Finish {
                    result: Err(RunError::DownstreamFailure { report }),
                })
            },
            Err(m) => settled(pre, post) && (a matches Action::Finish {
                result: Err(RunError::LaunchFailure { message }),
            } && message@ == m@),
        }),
        Phase::Done => false,
    }
}

/// Two argument lists hold the same strings in the same order.
pub open spec fn args_match(ar: Seq<String>, br: Seq<String>) -> bool {
    ar.len() == br.len() && (forall|j: int| 0 <= j < ar.len() ==> ar[j]@ == br[j]@)
}

/// Clones a list of argument strings.
fn clone_strings(v: &Vec<String>) -> (r: Vec<String>)
    ensures
        args_match(r@, v@),
{
    let mut out: Vec<String> = Vec::new();
    let n = v.len();
    let mut i: usize = 0;
    while i < n
        invariant
            i <= n,
            n == v.len(),
            out@.len() == i,
            forall|j: int| 0 <= j < i ==> out@[j]@ == v@[j]@,
        decreases n - i,
    {
        out.push(String::from_str(v[i].as_str()));
        i = i + 1;
    }
    out
}

impl Runner {
    /// Begins a run: the machine first probes the configured address for an
    /// already-running backend. The supervisor starts with nothing owned.
    pub fn start(config: Config) -> (r: (Runner, Action))
        ensures
            r.0.wf(),
            r.0.config == config,
            r.0.phase == Phase::InitialProbe,
            !r.0.sup.started_here,
            !r.0.sup.owns_process,
            is_probe_action(r.1, config.host@, config.port),
    {
        let url = tags_url(config.host.as_str(), config.port);
        let sup = Supervisor::adopted(String::from_str(config.host.as_str()), config.port);
        let runner = Runner { config, sup, phase: Phase::InitialProbe };
        (runner, Action::Probe { url })
    }

    /// After the backend is ready: enter the pull step unless it is skipped.
    fn enter_ready(&mut self) -> (a: Action)
        requires
            old(self).wf(),
        ensures
            final(self).wf(),
            ready_chain(*old(self), *final(self), a),
    {
        if !self.config.skip_pull {
            self.phase = Phase::Pulling;
            Action::Pull {
                program: String::from_str(self.config.ollama_bin.as_str()),
                subcommand: String::from_str("pull"),
                model: String::from_str(self.config.model.as_str()),
            }
        } else {
            self.enter_warm()
        }
    }

    /// After the pull: enter the warm-up step unless it is skipped.
    fn enter_warm(&mut self) -> (a: Action)
        requires
            old(self).wf(),
        ensures
            final(self).wf(),
            warm_chain(*old(self), *final(self), a),
    {
        if !self.config.no_warmup {
            self.phase = Phase::Warming;
            let url = generate_url(self.config.host.as_str(), self.config.port);
            let body = warm_body(self.config.model.as_str(), self.config.warm_prompt.as_str());
            Action::Warm { url, body }
        } else {
            self.enter_finish()
        }
    }

    /// After the warm-up: detach and stop in serve-only mode, else start
    /// resolving the downstream executable.
    fn enter_finish(&mut self) -> (a: Action)
        requires
            old(self).wf(),
        ensures
            final(self).wf(),
            finish_chain(*old(self), *final(self), a),
    {
        if self.config.serve_only {
            self.sup.detach();
            self.phase = Phase::Done;
            Action::Finish { result: Ok(Completion::ServeOnly) }
        } else if self.config.codex_bin.as_str().unicode_len() == 0 {
            self.phase = Phase::Done;
            Action::Finish { result: Err(RunError::Resolver { error: ResolveError::EmptyInput }) }
        } else {
            self.phase = Phase::ResolveDir;
            let path = String::from_str(self.config.codex_bin.as_str());
            Action::Ask { query: ResolveQuery::IsDir { path } }
        }
    }

    /// The executable is resolved: enter the launch step.
    fn enter_launch(&mut self, program: String) -> (a: Action)
        requires
            old(self).wf(),
        ensures
            final(self).wf(),
            launch_chain(*old(self), *final(self), a, program@),
    {
        self.phase = Phase::Launching;
        let args = clone_strings(&self.config.codex_args);
        let env = launch_env(
            self.config.host.as_str(),
            self.config.port,
            self.config.api_key.as_str(),
        );
        Action::Launch { program, args, env }
    }

    /// Takes the outcome of the last action and decides the next one. The
    /// whole behaviour is the `transition` relation.
    pub fn step(&mut self, event: Event) -> (a: Action)
        requires
            old(self).wf(),
            old(self).accepts(event),
        ensures
            final(self).wf(),
            transition(*old(self), event, *final(self), a),
    {
        let ph = self.phase;
        match ph {
            Phase::InitialProbe => {
                let live = match &event {
                    Event::Probe { result } => probe_is_live(result),
                    _ => { proof { assert(false); } false },
                };
                if live {
                    self.enter_ready()
                } else {
                    self.phase = Phase::Spawning;
                    let env = spawn_env(self.config.host.as_str(), self.config.port);
                    Action::Spawn {
                        program: String::from_str(self.config.ollama_bin.as_str()),
                        subcommand: String::from_str("serve"),
                        env,
                    }
                }
            },
            Phase::Spawning => {
                match event {
                    Event::SpawnResult { outcome } => {
                        match outcome {
                            Ok(_) => {
                                self.sup = Supervisor::spawned(
                                    String::from_str(self.config.host.as_str()),
                                    self.config.port,
                                );
                                self.phase = Phase::PollProbe;
                                Action::Probe {
                                    url: tags_url(self.config.host.as_str(), self.config.port),
                                }
                            },
                            Err(m) => {
                                self.phase = Phase::Done;
                                Action::Finish {
                                    result: Err(RunError::SpawnFailure { message: m }),
                                }
                            },
                        }
                    },
                    _ => { proof { assert(false); } Action::CheckProcess },
                }
            },
            Phase::PollProbe => {
                let live = match &event {
                    Event::Probe { result } => probe_is_live(result),
                    _ => { proof { assert(false); } false },
                };
                if live {
                    self.enter_ready()
                } else {
                    self.phase = Phase::PollCheck;
                    Action::CheckProcess
                }
            },
            Phase::PollCheck => {
                match event {
                    Event::ProcessStatus { exit, elapsed_ms } => {
                        match exit {
                            Some(report) => {
                                self.phase = Phase::Done;
                                Action::Finish { result: Err(RunError::PrematureExit { report }) }
                            },
                            None => {
                                if elapsed_ms > self.config.readiness_timeout_ms {
                                    self.phase = Phase::Done;
                                    Action::Finish {
                                        result: Err(RunError::ReadinessTimeout {
                                            host: String::from_str(self.config.host.as_str()),
                                            port: self.config.port,
                                        }),
                                    }
                                } else {
                                    self.phase = Phase::Sleeping;
                                    Action::Sleep { ms: POLL_INTERVAL_MS }
                                }
                            },
                        }
                    },
                    _ => { proof { assert(false); } Action::CheckProcess },
                }
            },
            Phase::Sleeping => {
                self.phase = Phase::PollProbe;
                Action::Probe { url: tags_url(self.config.host.as_str(), self.config.port) }
            },
            Phase::Pulling => {
                match event {
                    Event::PullResult { outcome } => {
                        match outcome {
                            Ok(report) => {
                                if report.success {
                                    self.enter_warm()
                                } else {
                                    self.phase = Phase::Done;
                                    Action::Finish {
                                        result: Err(RunError::PullFailure { report }),
                                    }
                                }
                            },
                            Err(m) => {
                                self.phase = Phase::Done;
                                Action::Finish {
                                    result: Err(RunError::PullStartFailure { message: m }),
                                }
                            },
                        }
                    },
                    _ => { proof { assert(false); } Action::CheckProcess },
                }
            },
            Phase::Warming => {
                match event {
                    Event::WarmResult { outcome } => {
                        match outcome {
                            Ok((status, body)) => {
                                let verdict = warm_reply_verdict(status, body.as_str());
                                match verdict {
                                    Ok(_) => self.enter_finish(),
                                    Err(e) => {
                                        self.phase = Phase::Done;
                                        Action::Finish { result: Err(e) }
                                    },
                                }
                            },
                            Err(m) => {
                                self.phase = Phase::Done;
                                Action::Finish {
                                    result: Err(RunError::WarmupTransportFailure { message: m }),
                                }
                            },
                        }
                    },
                    _ => { proof { assert(false); } Action::CheckProcess },
                }
            },
            Phase::ResolveDir => {
                let yes = match &event {
                    Event::IsDir { yes } => *yes,
                    _ => { proof { assert(false); } false },
                };
                if yes {
                    self.phase = Phase::ResolveCandidate { index: 0 };
                    let path = path_join(self.config.codex_bin.as_str(), candidate_str(0));
                    Action::Ask { query: ResolveQuery::IsFile { path } }
                } else {
                    self.phase = Phase::ResolveFile;
                    let path = String::from_str(self.config.codex_bin.as_str());
                    Action::Ask { query: ResolveQuery::IsFile { path } }
                }
            },
            Phase::ResolveCandidate { index } => {
                let yes = match &event {
                    Event::IsFile { yes } => *yes,
                    _ => { proof { assert(false); } false },
                };
                if yes {
                    let program = path_join(self.config.codex_bin.as_str(), candidate_str(index));
                    self.enter_launch(program)
                } else if index + 1 < CANDIDATE_COUNT {
                    self.phase = Phase::ResolveCandidate { index: index + 1 };
                    let path = path_join(self.config.codex_bin.as_str(), candidate_str(index + 1));
                    Action::Ask { query: ResolveQuery::IsFile { path } }
                } else {
                    self.phase = Phase::Done;
                    Action::Finish {
                        result: Err(RunError::Resolver {
                            error: ResolveError::NoCandidateInDir {
                                dir: String::from_str(self.config.codex_bin.as_str()),
                            },
                        }),
                    }
                }
            },
            Phase::ResolveFile => {
                let yes = match &event {
                    Event::IsFile { yes } => *yes,
                    _ => { proof { assert(false); } false },
                };
                if yes {
                    let program = String::from_str(self.config.codex_bin.as_str());
                    self.enter_launch(program)
                } else {
                    self.phase = Phase::ResolveSearch;
                    let name = String::from_str(self.config.codex_bin.as_str());
                    Action::Ask { query: ResolveQuery::PathSearch { name } }
                }
            },
            Phase::ResolveSearch => {
                match event {
                    Event::PathFound { found } => {
                        match found {
                            Some(p) => self.enter_launch(p),
                            None => {
                                self.phase = Phase::Done;
                                Action::Finish {
                                    result: Err(RunError::Resolver {
                                        error: ResolveError::NotFound {
                                            input: String::from_str(
                                                self.config.codex_bin.as_str(),
                                            ),
                                        },
                                    }),
                                }
                            },
                        }
                    },
                    _ => { proof { assert(false); } Action::CheckProcess },
                }
            },
            Phase::Launching => {
                match event {
                    Event::LaunchResult { outcome } => {
                        match outcome {
                            Ok(report) => {
                                if report.success {
                                    self.phase = Phase::Done;
                                    Action::Finish { result: Ok(Completion::Launched) }
                                } else {
                                    self.phase = Phase::Done;
                                    Action::Finish {
                                        result: Err(RunError::DownstreamFailure { report }),
                                    }
                                }
                            },
                            Err(m) => {
                                self.phase = Phase::Done;
                                Action::Finish { result: Err(RunError::LaunchFailure { message: m }) }
                            },
                        }
                    },
                    _ => { proof { assert(false); } Action::CheckProcess },
                }
            },
            Phase::Done => { proof { assert(false); } Action::CheckProcess },
        }
    }

    /// Whether cleanup must terminate the backend when the run ends: only a
    /// process this run started and still owns.
    pub fn should_terminate(&self) -> (r: bool)
        ensures
            r == (self.sup.started_here && self.sup.owns_process),
    {
        self.sup.should_terminate()
    }
}

/// A backend found reachable is adopted, never owned: the step after a live
/// initial probe orders no spawn, and the supervisor goes on owning nothing.
pub proof fn lemma_live_initial_probe_adopts(pre: Runner, event: Event, post: Runner, a: Action)
    requires
        transition(pre, event, post, a),
        pre.phase == Phase::InitialProbe,
        !pre.sup.started_here,
        !pre.sup.owns_process,
        event matches Event::Probe { result } && probe_live(result),
    ensures
        !post.sup.started_here,
        !post.sup.owns_process,
        !(a matches Action::Spawn { .. }),
{
}

/// A backend found unreachable at the initial probe is spawned: that step
/// orders exactly the spawn of the backend in serve mode.
pub proof fn lemma_unreachable_initial_probe_spawns(
    pre: Runner,
    event: Event,
    post: Runner,
    a: Action,
)
    requires
        transition(pre, event, post, a),
        pre.phase == Phase::InitialProbe,
        event matches Event::Probe { result } && !probe_live(result),
    ensures
        is_spawn_action(a, pre.config.ollama_bin@, pre.config.host@, pre.config.port),
        post.phase == Phase::Spawning,
{
}

/// A spawn is only ever ordered by the initial probe finding the backend
/// unreachable; no other step of the machine spawns anything.
pub proof fn lemma_spawn_only_from_initial_unreachable(
    pre: Runner,
    event: Event,
    post: Runner,
    a: Action,
)
    requires
        transition(pre, event, post, a),
        a matches Action::Spawn { .. },
    ensures
        pre.phase == Phase::InitialProbe,
        event matches Event::Probe { result } && !probe_live(result),
{
}

/// The initial phase is never re-entered, so with the previous law a run
/// orders at most one spawn — and an adopted backend none at all.
pub proof fn lemma_initial_probe_never_reentered(
    pre: Runner,
    event: Event,
    post: Runner,
    a: Action,
)
    requires
        transition(pre, event, post, a),
    ensures
        post.phase != Phase::InitialProbe,
{
}

/// Ownership is turned on only by a successful spawn: the one step that sets
/// `started_here` is the spawn step answering success, and it sets both
/// ownership marks together.
pub proof fn lemma_started_here_only_by_spawn(pre: Runner, event: Event, post: Runner, a: Action)
    requires
        transition(pre, event, post, a),
        !pre.sup.started_here,
        post.sup.started_here,
    ensures
        pre.phase == Phase::Spawning,
        event matches Event::SpawnResult { outcome } && outcome is Ok,
        post.sup.owns_process,
{
}

/// A run that ends in serve-only success has already handed ownership away:
/// cleanup then owes no termination, and the backend stays running.
pub proof fn lemma_serve_only_finish_disarms_cleanup(
    pre: Runner,
    event: Event,
    post: Runner,
    a: Action,
)
    requires
        transition(pre, event, post, a),
        a == (Action::Finish { result: Ok(Completion::ServeOnly) }),
    ensures
        !post.sup.started_here,
        !post.sup.owns_process,
{
}

/// A run that ends by launching keeps the supervisor as it was: a backend
/// started here is still owned when the run ends, so cleanup terminates it.
pub proof fn lemma_launched_finish_keeps_cleanup(
    pre: Runner,
    event: Event,
    post: Runner,
    a: Action,
)
    requires
        transition(pre, event, post, a),
        a == (Action::Finish { result: Ok(Completion::Launched) }),
    ensures
        sup_unchanged(pre.sup, post.sup),
{
}

} // verus!
