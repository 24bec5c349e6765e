//! The chat request: role-tagged messages, the request record, and its
//! construction from the resolved configuration.
use vstd::prelude::*;

verus! {

#[derive(Clone, Copy, PartialEq, Eq, Structural, Debug)]
pub enum Role {
    System,
    User,
    Assistant,
}

impl Role {
    /// The wire name of the role.
    pub open spec fn spec_name(self) -> Seq<char> {
        match self {
            Role::System => "system"@,
            Role::User => "user"@,
            Role::Assistant => "assistant"@,
        }
    }

    pub fn name(&self) -> (r: &'static str)
        ensures
            r@ == self.spec_name(),
    {
        match self {
            Role::System => "system",
            Role::User => "user",
            Role::Assistant => "assistant",
        }
    }
}

/// One role-tagged unit of conversation input.
pub struct Message {
    pub role: Role,
    pub content: String,
}

/// One chat request: the model, the ordered messages, the streaming switch
/// (always off here) and the optional response-format hint.
pub struct ChatRequest {
    pub model: String,
    pub messages: Vec<Message>,
    pub stream: bool,
    pub format: Option<String>,
}

/// Builds the one request of an invocation. The message sequence is the
/// optional system message followed by the single user message, in that
/// order; streaming is off; the format hint is the literal `json` exactly
/// when the JSON flag is set, and absent otherwise.
pub fn build_chat_request(model: String, prompt: String, system: Option<String>, json_mode: bool)
    -> (r: ChatRequest)
    ensures
        r.model == model,
        r.stream == false,
        json_mode ==> r.format is Some && r.format->0@ == "json"@,
        !json_mode ==> r.format is None,
        match system {
            Some(s) => r.messages@.len() == 2 && r.messages@[0].role == Role::System
                && r.messages@[0].content == s && r.messages@[1].role == Role::User
                && r.messages@[1].content == prompt,
            None => r.messages@.len() == 1 && r.messages@[0].role == Role::User
                && r.messages@[0].content == prompt,
        },
{
    let mut messages: Vec<Message> = Vec::new();
    match system {
        Some(s) => {
            messages.push(Message { role: Role::System, content: s });
        },
        None => {},
    }
    messages.push(Message { role: Role::User, content: prompt });
    let format: Option<String> = if json_mode {
        Some(String::from_str("json"))
    } else {
        None
    };
    ChatRequest { model, messages, stream: false, format }
}

} // verus!
