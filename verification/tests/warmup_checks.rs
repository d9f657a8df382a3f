use ollama_bridge::error::RunError;
use ollama_bridge::supervisor::{classify_probe, probe_is_live, ProbeResult};
use ollama_bridge::warmup::{classify_warm_reply, warm_reply_verdict};

#[test]
fn warmup_embedded_error_fails_despite_http_success() {
    let verdict = warm_reply_verdict(200, "{\"error\": \"model not found\"}");
    match verdict {
        Err(RunError::WarmupBackendError { message }) => {
            assert_eq!(message, "\"model not found\"");
        },
        other => panic!("expected an embedded backend error, got {:?}", other),
    }
}

#[test]
fn warmup_server_error_fails_regardless_of_body() {
    let verdict = warm_reply_verdict(503, "{\"response\": \"all fine\"}");
    match verdict {
        Err(RunError::WarmupHttpFailure { status, body }) => {
            assert_eq!(status, 503);
            assert_eq!(body, "{\"response\": \"all fine\"}");
        },
        other => panic!("expected an HTTP failure, got {:?}", other),
    }
    assert!(matches!(
        warm_reply_verdict(503, "not json at all"),
        Err(RunError::WarmupHttpFailure { status: 503, .. })
    ));
}

#[test]
fn warmup_client_error_fails_with_status() {
    assert!(matches!(
        warm_reply_verdict(404, "{}"),
        Err(RunError::WarmupHttpFailure { status: 404, .. })
    ));
}

#[test]
fn warmup_clean_response_succeeds() {
    assert!(warm_reply_verdict(200, "{\"response\": \"hello there\"}").is_ok());
}

#[test]
fn warmup_undecodable_body_fails() {
    assert!(matches!(
        warm_reply_verdict(200, "no json here"),
        Err(RunError::WarmupDecodeFailure)
    ));
}

#[test]
fn warmup_classification_follows_decoded_argument() {
    assert!(classify_warm_reply(200, "{}", Some(None)).is_ok());
    assert!(matches!(
        classify_warm_reply(200, "x", None),
        Err(RunError::WarmupDecodeFailure)
    ));
    match classify_warm_reply(200, "{}", Some(Some("\"oops\"".to_string()))) {
        Err(RunError::WarmupBackendError { message }) => assert_eq!(message, "\"oops\""),
        other => panic!("expected an embedded backend error, got {:?}", other),
    }
}

#[test]
fn probe_classification_is_tri_state() {
    assert_eq!(classify_probe(None), ProbeResult::Unreachable);
    assert_eq!(classify_probe(Some((200, String::new()))), ProbeResult::Reachable);
    assert_eq!(
        classify_probe(Some((404, "missing".to_string()))),
        ProbeResult::BackendError { status: 404, body: "missing".to_string() }
    );
}

#[test]
fn liveness_counts_any_status_below_500() {
    assert!(probe_is_live(&ProbeResult::Reachable));
    assert!(!probe_is_live(&ProbeResult::Unreachable));
    assert!(probe_is_live(&ProbeResult::BackendError { status: 404, body: String::new() }));
    assert!(probe_is_live(&ProbeResult::BackendError { status: 499, body: String::new() }));
    assert!(!probe_is_live(&ProbeResult::BackendError { status: 500, body: String::new() }));
    assert!(!probe_is_live(&ProbeResult::BackendError { status: 503, body: String::new() }));
}
