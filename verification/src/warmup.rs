//! Classification of the warm-up exchange: an error status fails outright,
//! and a transport-level success can still carry a semantic failure in an
//! embedded JSON error field.

use vstd::prelude::*;
use vstd::string::*;
use crate::error::RunError;

verus! {

/// Whether a string is decodable JSON, as `serde_json` decides it.
pub uninterp spec fn json_decodes(s: Seq<char>) -> bool;

/// The rendering of the top-level `error` member of a decodable JSON string,
/// when the decoded value has one.
pub uninterp spec fn json_error_entry(s: Seq<char>) -> Option<Seq<char>>;

/// What decoding a warm-up body yields: nothing when it is not JSON,
/// otherwise the rendered `error` member, if any.
pub open spec fn warm_decoded_spec(body: Seq<char>) -> Option<Option<Seq<char>>> {
    if json_decodes(body) {
        Some(json_error_entry(body))
    } else {
        None
    }
}

/// A warm-up reply that succeeds outright: a non-error status whose body
/// decodes and carries no `error` member.
pub open spec fn warm_ok(status: u16, body: Seq<char>) -> bool {
    status < 400 && json_decodes(body) && json_error_entry(body) is None
}

/// Relies on serde_json::from_str, serde_json::Value::get and the `Value`
/// rendering: whether a string decodes, whether the decoded value carries a
/// top-level `error` member, and that member's rendering all depend on the
/// string alone. The three calls are fused here because the decoded value
/// itself is opaque to the rest of the library.
#[verifier::external_body]
fn decode_error_entry(body: &str) -> (r: Option<Option<String>>)
    ensures
        r.deep_view() == warm_decoded_spec(body@),
        (r is Some) == json_decodes(body@),
        (r matches Some(Some(m)) ==> json_error_entry(body@) == Some(m@)),
{
    match serde_json::from_str::<serde_json::Value>(body) {
        Ok(v) => Some(v.get("error").map(|e| e.to_string())),
        Err(_) => None,
    }
}

/// The warm-up policy: a status of 400 or above fails with that status
/// whatever the body holds; a body that does not decode fails; a decoded
/// body with an `error` member fails with that member's text; anything else
/// succeeds.
pub open spec fn warm_classified(
    r: Result<(), RunError>,
    status: u16,
    body: Seq<char>,
    decoded: Option<Option<Seq<char>>>,
) -> bool {
    if status >= 400 {
        r matches Err(RunError::WarmupHttpFailure { status: s2, body: b2 }) && s2 == status && b2@
            == body
    } else {
        match decoded {
            None => r matches Err(RunError::WarmupDecodeFailure),
            Some(Some(m)) => r matches Err(RunError::WarmupBackendError { message }) && message@
                == m,
            Some(None) => r matches Ok(()),
        }
    }
}

/// Applies the warm-up policy to a reply whose body has already been
/// decoded: the decoded argument is `None` when the body was not JSON, and
/// otherwise holds the rendered `error` member, if any.
pub fn classify_warm_reply(status: u16, body: &str, decoded: Option<Option<String>>) -> (r: Result<
    (),
    RunError,
>)
    ensures
        warm_classified(r, status, body@, decoded.deep_view()),
{
    if status >= 400 {
        Err(RunError::WarmupHttpFailure { status, body: String::from_str(body) })
    } else {
        match decoded {
            None => Err(RunError::WarmupDecodeFailure),
            Some(Some(m)) => Err(RunError::WarmupBackendError { message: m }),
            Some(None) => Ok(()),
        }
    }
}

/// The verdict on a warm-up reply that arrived with the given status and
/// body.
pub fn warm_reply_verdict(status: u16, body: &str) -> (r: Result<(), RunError>)
    ensures
        warm_classified(r, status, body@, warm_decoded_spec(body@)),
{
    if status >= 400 {
        Err(RunError::WarmupHttpFailure { status, body: String::from_str(body) })
    } else {
        let decoded = decode_error_entry(body);
        classify_warm_reply(status, body, decoded)
    }
}

} // verus!
