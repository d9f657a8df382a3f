//! Addresses and environments the bridge hands to the outside world: the
//! backend's control URLs, and the variable lists injected when spawning the
//! backend or launching the downstream tool.

use vstd::prelude::*;
use vstd::string::*;
use crate::text::{dec_seq, u64_decimal};

verus! {

/// Fixed interval between readiness probes, in milliseconds.
pub const POLL_INTERVAL_MS: u64 = 250;

/// Connect timeout for a liveness probe, in milliseconds.
pub const PROBE_CONNECT_TIMEOUT_MS: u64 = 2000;

/// Read timeout for a liveness probe, in milliseconds.
pub const PROBE_READ_TIMEOUT_MS: u64 = 2000;

/// Connect timeout for the warm-up request, in milliseconds.
pub const WARM_CONNECT_TIMEOUT_MS: u64 = 5000;

/// Read timeout for the warm-up request, in milliseconds (generation can be
/// slow on first load).
pub const WARM_READ_TIMEOUT_MS: u64 = 30000;

/// The backend's inventory endpoint, probed for liveness.
pub open spec fn tags_url_seq(host: Seq<char>, port: u16) -> Seq<char> {
    "http://"@ + host + ":"@ + dec_seq(port as nat) + "/api/tags"@
}

/// The backend's generate endpoint, target of the warm-up request.
pub open spec fn generate_url_seq(host: Seq<char>, port: u16) -> Seq<char> {
    "http://"@ + host + ":"@ + dec_seq(port as nat) + "/api/generate"@
}

/// The OpenAI-style base URL handed to the downstream tool.
pub open spec fn base_url_seq(host: Seq<char>, port: u16) -> Seq<char> {
    "http://"@ + host + ":"@ + dec_seq(port as nat) + "/v1"@
}

pub fn tags_url(host: &str, port: u16) -> (r: String)
    ensures
        r@ == tags_url_seq(host@, port),
{
    let mut s = String::from_str("http://");
    s.append(host);
    s.append(":");
    let p = u64_decimal(port as u64);
    s.append(p.as_str());
    s.append("/api/tags");
    proof {
        assert(s@ =~= tags_url_seq(host@, port));
    }
    s
}

pub fn generate_url(host: &str, port: u16) -> (r: String)
    ensures
        r@ == generate_url_seq(host@, port),
{
    let mut s = String::from_str("http://");
    s.append(host);
    s.append(":");
    let p = u64_decimal(port as u64);
    s.append(p.as_str());
    s.append("/api/generate");
    proof {
        assert(s@ =~= generate_url_seq(host@, port));
    }
    s
}

pub fn base_url(host: &str, port: u16) -> (r: String)
    ensures
        r@ == base_url_seq(host@, port),
{
    let mut s = String::from_str("http://");
    s.append(host);
    s.append(":");
    let p = u64_decimal(port as u64);
    s.append(p.as_str());
    s.append("/v1");
    proof {
        assert(s@ =~= base_url_seq(host@, port));
    }
    s
}

/// The backend's serve-mode environment: its bind host and port.
pub open spec fn spawn_env_ok(env: Seq<(String, String)>, host: Seq<char>, port: u16) -> bool {
    &&& env.len() == 2
    &&& env[0].0@ == "OLLAMA_HOST"@
    &&& env[0].1@ == host
    &&& env[1].0@ == "OLLAMA_PORT"@
    &&& env[1].1@ == dec_seq(port as nat)
}

/// The downstream tool's environment: base URL, credential, and the
/// backend's host and port for nested tooling.
pub open spec fn launch_env_ok(
    env: Seq<(String, String)>,
    host: Seq<char>,
    port: u16,
    api_key: Seq<char>,
) -> bool {
    &&& env.len() == 4
    &&& env[0].0@ == "OPENAI_API_BASE"@
    &&& env[0].1@ == base_url_seq(host, port)
    &&& env[1].0@ == "OPENAI_API_KEY"@
    &&& env[1].1@ == api_key
    &&& env[2].0@ == "OLLAMA_HOST"@
    &&& env[2].1@ == host
    &&& env[3].0@ == "OLLAMA_PORT"@
    &&& env[3].1@ == dec_seq(port as nat)
}

/// The environment injected when spawning the backend in serve mode: its bind
/// host and port.
pub fn spawn_env(host: &str, port: u16) -> (r: Vec<(String, String)>)
    ensures
        spawn_env_ok(r@, host@, port),
{
    let mut v: Vec<(String, String)> = Vec::new();
    v.push((String::from_str("OLLAMA_HOST"), String::from_str(host)));
    v.push((String::from_str("OLLAMA_PORT"), u64_decimal(port as u64)));
    v
}

/// The environment injected when launching the downstream tool: base URL,
/// credential, and the backend's host and port for nested tooling.
pub fn launch_env(host: &str, port: u16, api_key: &str) -> (r: Vec<(String, String)>)
    ensures
        launch_env_ok(r@, host@, port, api_key@),
{
    let mut v: Vec<(String, String)> = Vec::new();
    v.push((String::from_str("OPENAI_API_BASE"), base_url(host, port)));
    v.push((String::from_str("OPENAI_API_KEY"), String::from_str(api_key)));
    v.push((String::from_str("OLLAMA_HOST"), String::from_str(host)));
    v.push((String::from_str("OLLAMA_PORT"), u64_decimal(port as u64)));
    v
}

} // verus!
