use ollama_bridge::error::{ExitReport, RunError};
use ollama_bridge::resolver::ResolveQuery;
use ollama_bridge::runner::{Action, Completion, Config, Event, Runner};
use ollama_bridge::supervisor::ProbeResult;

fn test_config(serve_only: bool) -> Config {
    Config {
        codex_bin: "/tools/codex".to_string(),
        codex_args: vec!["--foo".to_string(), "bar".to_string()],
        ollama_bin: "ollama".to_string(),
        model: "llama3.2:3b".to_string(),
        host: "127.0.0.1".to_string(),
        port: 11434,
        api_key: "ollama".to_string(),
        readiness_timeout_ms: 45000,
        skip_pull: true,
        no_warmup: false,
        serve_only,
        warm_prompt: "Codex warm-up ping.".to_string(),
    }
}

fn unreachable_probe() -> Event {
    Event::Probe { result: ProbeResult::Unreachable }
}

/// Drives the machine from the start through spawn and three failed poll
/// rounds up to the probe that succeeds, returning the machine and the action
/// that follows readiness.
fn drive_to_ready(config: Config) -> (Runner, Action) {
    let (mut runner, action) = Runner::start(config);
    assert_eq!(action, Action::Probe { url: "http://127.0.0.1:11434/api/tags".to_string() });

    // The backend is unreachable: the machine orders exactly one spawn.
    let action = runner.step(unreachable_probe());
    match action {
        Action::Spawn { program, subcommand, env } => {
            assert_eq!(program, "ollama");
            assert_eq!(subcommand, "serve");
            assert_eq!(env[0], ("OLLAMA_HOST".to_string(), "127.0.0.1".to_string()));
            assert_eq!(env[1], ("OLLAMA_PORT".to_string(), "11434".to_string()));
        },
        other => panic!("expected a spawn, got {:?}", other),
    }

    // The spawn succeeds; the machine owns the process and polls.
    let mut action = runner.step(Event::SpawnResult { outcome: Ok(()) });
    assert!(runner.should_terminate());

    // Three poll rounds fail: probe, exit check, sleep, each round.
    let mut elapsed = 0u64;
    for _ in 0..3 {
        assert!(matches!(action, Action::Probe { .. }));
        action = runner.step(unreachable_probe());
        assert_eq!(action, Action::CheckProcess);
        elapsed += 250;
        action = runner.step(Event::ProcessStatus { exit: None, elapsed_ms: elapsed });
        assert_eq!(action, Action::Sleep { ms: 250 });
        action = runner.step(Event::Slept);
    }

    // The fourth probe succeeds; the pull is skipped by configuration, so the
    // warm-up request comes next.
    assert!(matches!(action, Action::Probe { .. }));
    let action = runner.step(Event::Probe { result: ProbeResult::Reachable });
    (runner, action)
}

#[test]
fn full_run_launches_codex_and_owes_cleanup() {
    let (mut runner, action) = drive_to_ready(test_config(false));
    match &action {
        Action::Warm { url, body } => {
            assert_eq!(url, "http://127.0.0.1:11434/api/generate");
            assert!(body.contains("\"model\":\"llama3.2:3b\""));
        },
        other => panic!("expected the warm-up request, got {:?}", other),
    }

    // The warm-up reply carries a response and no error field.
    let action = runner.step(Event::WarmResult {
        outcome: Ok((200, "{\"response\": \"hello\"}".to_string())),
    });
    assert_eq!(
        action,
        Action::Ask { query: ResolveQuery::IsDir { path: "/tools/codex".to_string() } }
    );
    let action = runner.step(Event::IsDir { yes: false });
    assert_eq!(
        action,
        Action::Ask { query: ResolveQuery::IsFile { path: "/tools/codex".to_string() } }
    );
    let action = runner.step(Event::IsFile { yes: true });
    match action {
        Action::Launch { program, args, env } => {
            assert_eq!(program, "/tools/codex");
            assert_eq!(args, vec!["--foo".to_string(), "bar".to_string()]);
            assert_eq!(
                env[0],
                ("OPENAI_API_BASE".to_string(), "http://127.0.0.1:11434/v1".to_string())
            );
            assert_eq!(env[1], ("OPENAI_API_KEY".to_string(), "ollama".to_string()));
        },
        other => panic!("expected the launch, got {:?}", other),
    }

    // The downstream tool exits cleanly; the run ends and, having started the
    // backend, still owes its termination.
    let action = runner.step(Event::LaunchResult {
        outcome: Ok(ExitReport { success: true, code: Some(0) }),
    });
    assert_eq!(action, Action::Finish { result: Ok(Completion::Launched) });
    assert!(runner.should_terminate());
}

#[test]
fn serve_only_run_stops_short_and_disarms_cleanup() {
    let (mut runner, action) = drive_to_ready(test_config(true));
    assert!(matches!(action, Action::Warm { .. }));
    assert!(runner.should_terminate());

    let action = runner.step(Event::WarmResult {
        outcome: Ok((200, "{\"response\": \"hello\"}".to_string())),
    });
    // The run ends successfully without any launch, and ownership was handed
    // away: cleanup must not terminate the backend.
    assert_eq!(action, Action::Finish { result: Ok(Completion::ServeOnly) });
    assert!(!runner.should_terminate());
}

#[test]
fn adopted_backend_is_never_spawned_or_terminated() {
    let (mut runner, action) = Runner::start(test_config(false));
    assert!(matches!(action, Action::Probe { .. }));
    let action = runner.step(Event::Probe { result: ProbeResult::Reachable });
    // Reachable at once: no spawn; pull skipped, straight to warm-up.
    assert!(matches!(action, Action::Warm { .. }));
    assert!(!runner.should_terminate());
}

#[test]
fn premature_exit_fails_without_waiting_out_the_deadline() {
    let (mut runner, _) = Runner::start(test_config(false));
    let _ = runner.step(unreachable_probe());
    let action = runner.step(Event::SpawnResult { outcome: Ok(()) });
    assert!(matches!(action, Action::Probe { .. }));
    let action = runner.step(unreachable_probe());
    assert_eq!(action, Action::CheckProcess);
    // The owned process died 500 ms in, far below the 45 s deadline.
    let report = ExitReport { success: false, code: Some(1) };
    let action = runner.step(Event::ProcessStatus { exit: Some(report), elapsed_ms: 500 });
    assert_eq!(
        action,
        Action::Finish { result: Err(RunError::PrematureExit { report }) }
    );
}

#[test]
fn readiness_timeout_fails_once_the_deadline_has_passed() {
    let (mut runner, _) = Runner::start(test_config(false));
    let _ = runner.step(unreachable_probe());
    let _ = runner.step(Event::SpawnResult { outcome: Ok(()) });
    let _ = runner.step(unreachable_probe());
    let action = runner.step(Event::ProcessStatus { exit: None, elapsed_ms: 45001 });
    match action {
        Action::Finish { result: Err(RunError::ReadinessTimeout { host, port }) } => {
            assert_eq!(host, "127.0.0.1");
            assert_eq!(port, 11434);
        },
        other => panic!("expected a readiness timeout, got {:?}", other),
    }
}

#[test]
fn spawn_failure_is_fatal() {
    let (mut runner, _) = Runner::start(test_config(false));
    let _ = runner.step(unreachable_probe());
    let action = runner.step(Event::SpawnResult { outcome: Err("no such file".to_string()) });
    match action {
        Action::Finish { result: Err(e) } => {
            assert_eq!(e.message(), "failed to spawn `ollama serve`: no such file");
        },
        other => panic!("expected a fatal spawn failure, got {:?}", other),
    }
    assert!(!runner.should_terminate());
}

#[test]
fn failed_pull_aborts_the_run() {
    let mut config = test_config(false);
    config.skip_pull = false;
    let (mut runner, action) = Runner::start(config);
    assert!(matches!(action, Action::Probe { .. }));
    let action = runner.step(Event::Probe { result: ProbeResult::Reachable });
    match action {
        Action::Pull { program, subcommand, model } => {
            assert_eq!(program, "ollama");
            assert_eq!(subcommand, "pull");
            assert_eq!(model, "llama3.2:3b");
        },
        other => panic!("expected the pull, got {:?}", other),
    }
    let report = ExitReport { success: false, code: Some(2) };
    let action = runner.step(Event::PullResult { outcome: Ok(report) });
    assert_eq!(action, Action::Finish { result: Err(RunError::PullFailure { report }) });
}

#[test]
fn warmup_embedded_error_aborts_the_run() {
    let (mut runner, action) = drive_to_ready(test_config(false));
    assert!(matches!(action, Action::Warm { .. }));
    let action = runner.step(Event::WarmResult {
        outcome: Ok((200, "{\"error\": \"model not found\"}".to_string())),
    });
    match action {
        Action::Finish { result: Err(RunError::WarmupBackendError { message }) } => {
            assert_eq!(message, "\"model not found\"");
        },
        other => panic!("expected the embedded warm-up error, got {:?}", other),
    }
}

#[test]
fn downstream_failure_carries_its_exit_report() {
    let (mut runner, _) = drive_to_ready(test_config(false));
    let _ = runner.step(Event::WarmResult {
        outcome: Ok((200, "{\"response\": \"ok\"}".to_string())),
    });
    let _ = runner.step(Event::IsDir { yes: false });
    let _ = runner.step(Event::IsFile { yes: true });
    let report = ExitReport { success: false, code: Some(3) };
    let action = runner.step(Event::LaunchResult { outcome: Ok(report) });
    assert_eq!(
        action,
        Action::Finish { result: Err(RunError::DownstreamFailure { report }) }
    );
}

#[test]
fn empty_codex_bin_fails_after_warmup_without_resolver_questions() {
    let mut config = test_config(false);
    config.codex_bin = String::new();
    config.no_warmup = true;
    let (mut runner, _) = Runner::start(config);
    let action = runner.step(Event::Probe { result: ProbeResult::Reachable });
    match action {
        Action::Finish { result: Err(e) } => {
            assert_eq!(e.message(), "`--codex-bin` cannot be empty");
        },
        other => panic!("expected the empty-input failure, got {:?}", other),
    }
}
