//! The decision core of an invocation: from the parsed arguments, the two
//! environment overrides and the buffered piped input to the one thing the
//! process does next.
use vstd::prelude::*;

use crate::compose::{compose_prompt, composed, join_args, join_spaced, piped_context, trimmed,
    views};
use crate::config::{chat_url, resolve_default_model, resolve_host, resolve_model,
    resolved_default_model, resolved_host, resolved_model, tags_url};
use crate::json::{chat_body_text, encode_chat_request, lemma_request_body_shape};
use crate::outcome::{usage_failure, usage_text, version_outcome, version_text, Outcome};
use crate::request::build_chat_request;

verus! {

/// The command line, already parsed into plain values.
pub struct CliArgs {
    pub prompt: Vec<String>,
    pub model: String,
    pub system: Option<String>,
    pub json: bool,
    pub output: Option<String>,
    pub list_models: bool,
    pub version: bool,
}

/// The one thing an invocation does next: end with an outcome, fetch the
/// model list from the given URL, or post the given body to the given URL
/// and then route the reply to the given output path.
pub enum Step {
    Finish(Outcome),
    FetchModels { url: String },
    SendChat { url: String, body: String, output: Option<String> },
}

/// The piped context that composition sees: the trimmed stream contents,
/// kept only when the stream was there and not blank.
pub open spec fn piped_view(piped: Option<String>) -> Option<Seq<char>> {
    match piped {
        None => None,
        Some(p) => if trimmed(p@).len() == 0 {
            None
        } else {
            Some(trimmed(p@))
        },
    }
}

pub open spec fn opt_string_view(s: Option<String>) -> Option<Seq<char>> {
    match s {
        None => None,
        Some(x) => Some(x@),
    }
}

/// The final prompt of an invocation.
pub open spec fn final_prompt(args_prompt: Seq<String>, piped: Option<String>) -> Seq<char> {
    composed(join_spaced(views(args_prompt)), piped_view(piped))
}

/// Standard input is read only on the chat path: never for the version or
/// the listing path.
pub fn needs_stdin(args: &CliArgs) -> (b: bool)
    ensures
        b == (!args.version && !args.list_models),
{
    !args.version && !args.list_models
}

/// Decides an invocation. The version flag short-circuits everything and
/// ends with the version text; the listing flag asks for one GET against
/// the resolved host; an empty composed prompt is the user error, decided
/// before any network step; otherwise the one chat request is built and
/// encoded, ready to post.
pub fn plan_invocation(
    args: CliArgs,
    env_host: Option<String>,
    env_model: Option<String>,
    piped: Option<String>,
) -> (s: Step)
    ensures
        args.version ==> (s matches Step::Finish(o) && o.out@ == version_text(
            resolved_host(env_host),
            resolved_default_model(env_model),
        ) && o.err@.len() == 0 && o.code == 0),
        !args.version && args.list_models ==> (s matches Step::FetchModels { url } && url@
            == resolved_host(env_host) + "/api/tags"@),
        !args.version && !args.list_models && final_prompt(args.prompt@, piped).len() == 0 ==> (
        s matches Step::Finish(o) && o.out@.len() == 0 && o.err@ == usage_text() && o.code == 1),
        !args.version && !args.list_models && final_prompt(args.prompt@, piped).len() > 0 ==> (
        s matches Step::SendChat { url, body, output } && url@ == resolved_host(env_host)
            + "/api/chat"@ && body@ == chat_body_text(
            resolved_model(args.model@, env_model),
            opt_string_view(args.system),
            final_prompt(args.prompt@, piped),
            args.json,
        ) && output == args.output),
{
    let CliArgs { prompt, model, system, json, output, list_models, version } = args;
    let host = resolve_host(env_host);
    if version {
        let default_model = resolve_default_model(env_model);
        return Step::Finish(version_outcome(host.as_str(), default_model.as_str()));
    }
    if list_models {
        return Step::FetchModels { url: tags_url(host.as_str()) };
    }
    let resolved = resolve_model(model, env_model);
    let primary = join_args(&prompt);
    let context: Option<String> = match &piped {
        Some(p) => piped_context(p.as_str()),
        None => None,
    };
    let full_prompt = compose_prompt(
        primary.as_str(),
        match &context {
            Some(c) => Some(c.as_str()),
            None => None,
        },
    );
    proof {
        assert(full_prompt@ == final_prompt(args.prompt@, piped));
    }
    if full_prompt.as_str().is_empty() {
        return Step::Finish(usage_failure());
    }
    let ghost system_view = opt_string_view(system);
    let request = build_chat_request(resolved, full_prompt, system, json);
    let body = encode_chat_request(&request);
    proof {
        lemma_request_body_shape(
            request,
            resolved_model(args.model@, env_model),
            system_view,
            final_prompt(args.prompt@, piped),
            json,
        );
    }
    Step::SendChat { url: chat_url(host.as_str()), body, output }
}

} // verus!
