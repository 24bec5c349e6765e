//! Resolution of the server host and the model name from optional
//! environment overrides, and the endpoint URLs derived from the host.
use vstd::prelude::*;

verus! {

/// The host used when no override is present.
pub open spec fn default_host() -> Seq<char> {
    "http://localhost:11434"@
}

/// The model used when neither the command line nor the environment names
/// one.
pub open spec fn builtin_model() -> Seq<char> {
    "gpt-oss:latest"@
}

/// The base server URL: the override when it is set and non-empty, else the
/// built-in local default.
pub open spec fn resolved_host(env_host: Option<String>) -> Seq<char> {
    match env_host {
        Some(h) => if h@.len() > 0 {
            h@
        } else {
            default_host()
        },
        None => default_host(),
    }
}

/// The default model name: the override when it is set and non-empty, else
/// the built-in literal.
pub open spec fn resolved_default_model(env_model: Option<String>) -> Seq<char> {
    match env_model {
        Some(m) => if m@.len() > 0 {
            m@
        } else {
            builtin_model()
        },
        None => builtin_model(),
    }
}

/// The model the request is made with: a model named on the command line
/// wins; the built-in literal there stands for "not chosen" and yields the
/// resolved default.
pub open spec fn resolved_model(cli_model: Seq<char>, env_model: Option<String>) -> Seq<char> {
    if cli_model == builtin_model() {
        resolved_default_model(env_model)
    } else {
        cli_model
    }
}

pub fn resolve_host(env_host: Option<String>) -> (r: String)
    ensures
        r@ == resolved_host(env_host),
{
    match env_host {
        Some(h) => {
            if h.as_str().is_empty() {
                String::from_str("http://localhost:11434")
            } else {
                h
            }
        },
        None => String::from_str("http://localhost:11434"),
    }
}

pub fn resolve_default_model(env_model: Option<String>) -> (r: String)
    ensures
        r@ == resolved_default_model(env_model),
{
    match env_model {
        Some(m) => {
            if m.as_str().is_empty() {
                String::from_str("gpt-oss:latest")
            } else {
                m
            }
        },
        None => String::from_str("gpt-oss:latest"),
    }
}

pub fn resolve_model(cli_model: String, env_model: Option<String>) -> (r: String)
    ensures
        r@ == resolved_model(cli_model@, env_model),
{
    let fallback = String::from_str("gpt-oss:latest");
    if cli_model == fallback {
        resolve_default_model(env_model)
    } else {
        cli_model
    }
}

/// The endpoint a chat request is posted to.
pub fn chat_url(host: &str) -> (r: String)
    ensures
        r@ == host@ + "/api/chat"@,
{
    let mut out = String::from_str(host);
    out.append("/api/chat");
    out
}

/// The endpoint the model list is fetched from.
pub fn tags_url(host: &str) -> (r: String)
    ensures
        r@ == host@ + "/api/tags"@,
{
    let mut out = String::from_str(host);
    out.append("/api/tags");
    out
}

} // verus!
