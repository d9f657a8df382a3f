use ollama_bridge::endpoints::{base_url, generate_url, launch_env, spawn_env, tags_url};
use ollama_bridge::error::{ExitReport, ResolveError, RunError, exit_string};
use ollama_bridge::json::{json_escape, warm_body};
use ollama_bridge::text::{i32_decimal, u64_decimal};

#[test]
fn decimal_renders_zero() {
    assert_eq!(u64_decimal(0), "0");
}

#[test]
fn decimal_renders_port() {
    assert_eq!(u64_decimal(11434), "11434");
}

#[test]
fn decimal_renders_u64_max() {
    assert_eq!(u64_decimal(u64::MAX), "18446744073709551615");
}

#[test]
fn signed_decimal_renders_negative() {
    assert_eq!(i32_decimal(-5), "-5");
    assert_eq!(i32_decimal(i32::MIN), "-2147483648");
    assert_eq!(i32_decimal(42), "42");
}

#[test]
fn exit_rendering_uses_code_or_signal() {
    assert_eq!(exit_string(&ExitReport { success: false, code: Some(7) }), "7");
    assert_eq!(exit_string(&ExitReport { success: false, code: None }), "signal");
}

#[test]
fn urls_are_exact() {
    assert_eq!(tags_url("127.0.0.1", 11434), "http://127.0.0.1:11434/api/tags");
    assert_eq!(generate_url("127.0.0.1", 11434), "http://127.0.0.1:11434/api/generate");
    assert_eq!(base_url("127.0.0.1", 11434), "http://127.0.0.1:11434/v1");
    assert_eq!(base_url("localhost", 8080), "http://localhost:8080/v1");
}

#[test]
fn spawn_env_lists_host_and_port() {
    let env = spawn_env("127.0.0.1", 11434);
    assert_eq!(env.len(), 2);
    assert_eq!(env[0], ("OLLAMA_HOST".to_string(), "127.0.0.1".to_string()));
    assert_eq!(env[1], ("OLLAMA_PORT".to_string(), "11434".to_string()));
}

#[test]
fn launch_env_injects_base_url_and_key() {
    let env = launch_env("127.0.0.1", 11434, "ollama");
    assert_eq!(env.len(), 4);
    assert_eq!(env[0], ("OPENAI_API_BASE".to_string(), "http://127.0.0.1:11434/v1".to_string()));
    assert_eq!(env[1], ("OPENAI_API_KEY".to_string(), "ollama".to_string()));
    assert_eq!(env[2], ("OLLAMA_HOST".to_string(), "127.0.0.1".to_string()));
    assert_eq!(env[3], ("OLLAMA_PORT".to_string(), "11434".to_string()));
}

#[test]
fn json_escape_passes_plain_text() {
    assert_eq!(json_escape("Codex warm-up ping."), "Codex warm-up ping.");
}

#[test]
fn json_escape_handles_quotes_backslashes_and_controls() {
    assert_eq!(json_escape("a\"b"), "a\\\"b");
    assert_eq!(json_escape("a\\b"), "a\\\\b");
    assert_eq!(json_escape("a\nb\tc"), "a\\u000ab\\u0009c");
}

#[test]
fn warm_body_is_exact() {
    assert_eq!(
        warm_body("llama3.2:3b", "Codex warm-up ping."),
        "{\"model\":\"llama3.2:3b\",\"prompt\":\"Codex warm-up ping.\",\"stream\":false,\"options\":{\"temperature\":0,\"num_predict\":16}}"
    );
}

#[test]
fn warm_body_escapes_its_fields() {
    let body = warm_body("m\"x", "p\\q");
    assert_eq!(
        body,
        "{\"model\":\"m\\\"x\",\"prompt\":\"p\\\\q\",\"stream\":false,\"options\":{\"temperature\":0,\"num_predict\":16}}"
    );
    // The body must stay decodable JSON whatever the inputs hold.
    let v: serde_json::Value = serde_json::from_str(&body).unwrap();
    assert_eq!(v["model"], serde_json::Value::String("m\"x".to_string()));
    assert_eq!(v["prompt"], serde_json::Value::String("p\\q".to_string()));
}

#[test]
fn error_messages_are_exact() {
    assert_eq!(
        RunError::SpawnFailure { message: "boom".to_string() }.message(),
        "failed to spawn `ollama serve`: boom"
    );
    assert_eq!(
        RunError::PrematureExit { report: ExitReport { success: false, code: Some(3) } }.message(),
        "`ollama serve` exited prematurely with status 3"
    );
    assert_eq!(
        RunError::ReadinessTimeout { host: "127.0.0.1".to_string(), port: 11434 }.message(),
        "timed out waiting for `ollama serve` to become ready on 127.0.0.1:11434"
    );
    assert_eq!(
        RunError::PullStartFailure { message: "no such file".to_string() }.message(),
        "failed to run `ollama pull`: no such file"
    );
    assert_eq!(
        RunError::PullFailure { report: ExitReport { success: false, code: None } }.message(),
        "`ollama pull` exited with status signal"
    );
    assert_eq!(
        RunError::WarmupTransportFailure { message: "timed out".to_string() }.message(),
        "failed to send warm-up request to Ollama: timed out"
    );
    assert_eq!(
        RunError::WarmupHttpFailure { status: 503, body: "busy".to_string() }.message(),
        "warm-up request failed with HTTP 503: busy"
    );
    assert_eq!(
        RunError::WarmupDecodeFailure.message(),
        "failed to decode warm-up response from Ollama"
    );
    assert_eq!(
        RunError::WarmupBackendError { message: "\"model not found\"".to_string() }.message(),
        "Ollama warm-up error: \"model not found\""
    );
    assert_eq!(
        RunError::Resolver { error: ResolveError::EmptyInput }.message(),
        "`--codex-bin` cannot be empty"
    );
    assert_eq!(
        RunError::Resolver { error: ResolveError::NoCandidateInDir { dir: "/t".to_string() } }
            .message(),
        "`--codex-bin` points at directory `/t` but no Codex executable was found inside"
    );
    assert_eq!(
        RunError::Resolver { error: ResolveError::NotFound { input: "codex".to_string() } }
            .message(),
        "failed to locate Codex executable at `codex` or on PATH"
    );
    assert_eq!(
        RunError::LaunchFailure { message: "denied".to_string() }.message(),
        "failed to launch Codex: denied"
    );
    assert_eq!(
        RunError::DownstreamFailure { report: ExitReport { success: false, code: Some(-9) } }
            .message(),
        "Codex exited with status -9"
    );
}
