//! The JSON text of a chat request, exactly as it goes on the wire: compact,
//! fields in declaration order, strings escaped the way the chat endpoint
//! expects them.
use vstd::prelude::*;

use crate::request::{ChatRequest, Message};

verus! {

/// The character for a single lowercase hexadecimal digit.
pub open spec fn hex_char(d: nat) -> char
    recommends
        d < 16,
{
    if d == 0 {
        '0'
    } else if d == 1 {
        '1'
    } else if d == 2 {
        '2'
    } else if d == 3 {
        '3'
    } else if d == 4 {
        '4'
    } else if d == 5 {
        '5'
    } else if d == 6 {
        '6'
    } else if d == 7 {
        '7'
    } else if d == 8 {
        '8'
    } else if d == 9 {
        '9'
    } else if d == 10 {
        'a'
    } else if d == 11 {
        'b'
    } else if d == 12 {
        'c'
    } else if d == 13 {
        'd'
    } else if d == 14 {
        'e'
    } else {
        'f'
    }
}

fn hex_char_of(d: u32) -> (c: char)
    requires
        d < 16,
    ensures
        c == hex_char(d as nat),
{
    if d == 0 {
        '0'
    } else if d == 1 {
        '1'
    } else if d == 2 {
        '2'
    } else if d == 3 {
        '3'
    } else if d == 4 {
        '4'
    } else if d == 5 {
        '5'
    } else if d == 6 {
        '6'
    } else if d == 7 {
        '7'
    } else if d == 8 {
        '8'
    } else if d == 9 {
        '9'
    } else if d == 10 {
        'a'
    } else if d == 11 {
        'b'
    } else if d == 12 {
        'c'
    } else if d == 13 {
        'd'
    } else if d == 14 {
        'e'
    } else {
        'f'
    }
}

/// How one character appears inside a JSON string literal: the quote and the
/// backslash get a backslash escape, the named control characters get their
/// short escapes, every other control character a `\u00..` escape, and all
/// the rest stand as they are.
pub open spec fn escaped_char(c: char) -> Seq<char> {
    if c == '"' {
        seq!['\\', '"']
    } else if c == '\\' {
        seq!['\\', '\\']
    } else if c == '\u{8}' {
        seq!['\\', 'b']
    } else if c == '\t' {
        seq!['\\', 't']
    } else if c == '\n' {
        seq!['\\', 'n']
    } else if c == '\u{c}' {
        seq!['\\', 'f']
    } else if c == '\r' {
        seq!['\\', 'r']
    } else if (c as u32) < 0x20 {
        seq!['\\', 'u', '0', '0', hex_char((c as u32 / 16) as nat), hex_char(
            (c as u32 % 16) as nat,
        )]
    } else {
        seq![c]
    }
}

pub open spec fn escaped(s: Seq<char>) -> Seq<char>
    decreases s.len(),
{
    if s.len() == 0 {
        Seq::empty()
    } else {
        escaped(s.drop_last()) + escaped_char(s.last())
    }
}

/// A JSON string literal: the escaped text between double quotes.
pub open spec fn quoted(s: Seq<char>) -> Seq<char> {
    seq!['"'] + escaped(s) + seq!['"']
}

/// A character that escaping leaves as it is.
pub open spec fn plain_char(c: char) -> bool {
    c != '"' && c != '\\' && (c as u32) >= 0x20
}

/// Escaping leaves a text of plain characters unchanged.
pub proof fn lemma_escaped_plain(s: Seq<char>)
    requires
        forall|i: int| 0 <= i < s.len() ==> plain_char(#[trigger] s[i]),
    ensures
        escaped(s) == s,
    decreases s.len(),
{
    if s.len() > 0 {
        lemma_escaped_plain(s.drop_last());
        assert(escaped_char(s.last()) == seq![s.last()]);
        assert(s.drop_last() + seq![s.last()] =~= s);
    }
}

fn append_escaped(out: &mut String, s: &str)
    ensures
        final(out)@ == old(out)@ + escaped(s@),
{
    let n = s.unicode_len();
    let mut i: usize = 0;
    proof {
        assert(out@ =~= old(out)@ + escaped(s@.take(0)));
    }
    while i < n
        invariant
            n == s@.len(),
            i <= n,
            out@ == old(out)@ + escaped(s@.take(i as int)),
        decreases n - i,
    {
        let c = s.get_char(i);
        let ghost pre = out@;
        if c == '"' {
            crate::text::push_char(out, '\\');
            crate::text::push_char(out, '"');
        } else if c == '\\' {
            crate::text::push_char(out, '\\');
            crate::text::push_char(out, '\\');
        } else if c == '\u{8}' {
            crate::text::push_char(out, '\\');
            crate::text::push_char(out, 'b');
        } else if c == '\t' {
            crate::text::push_char(out, '\\');
            crate::text::push_char(out, 't');
        } else if c == '\n' {
            crate::text::push_char(out, '\\');
            crate::text::push_char(out, 'n');
        } else if c == '\u{c}' {
            crate::text::push_char(out, '\\');
            crate::text::push_char(out, 'f');
        } else if c == '\r' {
            crate::text::push_char(out, '\\');
            crate::text::push_char(out, 'r');
        } else if (c as u32) < 0x20 {
            let u: u32 = c as u32;
            crate::text::push_char(out, '\\');
            crate::text::push_char(out, 'u');
            crate::text::push_char(out, '0');
            crate::text::push_char(out, '0');
            crate::text::push_char(out, hex_char_of(u / 16));
            crate::text::push_char(out, hex_char_of(u % 16));
        } else {
            crate::text::push_char(out, c);
        }
        proof {
            assert(out@ =~= pre + escaped_char(c));
            assert(s@.take(i + 1).drop_last() =~= s@.take(i as int));
            assert(s@.take(i + 1).last() == c);
            assert(out@ =~= old(out)@ + escaped(s@.take(i + 1)));
        }
        i = i + 1;
    }
    proof {
        assert(s@.take(n as int) =~= s@);
    }
}

fn append_quoted(out: &mut String, s: &str)
    ensures
        final(out)@ == old(out)@ + quoted(s@),
{
    crate::text::push_char(out, '"');
    append_escaped(out, s);
    crate::text::push_char(out, '"');
    proof {
        assert(out@ =~= old(out)@ + quoted(s@));
    }
}

/// The JSON object of one message.
pub open spec fn json_of_message(m: Message) -> Seq<char> {
    "{\"role\":"@ + quoted(m.role.spec_name()) + ",\"content\":"@ + quoted(m.content@) + "}"@
}

/// The members of the message array, separated by commas.
pub open spec fn json_of_message_list(ms: Seq<Message>) -> Seq<char>
    decreases ms.len(),
{
    if ms.len() == 0 {
        Seq::empty()
    } else if ms.len() == 1 {
        json_of_message(ms[0])
    } else {
        json_of_message_list(ms.drop_last()) + seq![','] + json_of_message(ms.last())
    }
}

pub open spec fn stream_text(stream: bool) -> Seq<char> {
    if stream {
        "true"@
    } else {
        "false"@
    }
}

/// The optional format member: absent entirely when no hint was asked for.
pub open spec fn format_part(format: Option<String>) -> Seq<char> {
    match format {
        None => Seq::empty(),
        Some(f) => ",\"format\":"@ + quoted(f@),
    }
}

/// The whole request body.
pub open spec fn json_of_request(r: ChatRequest) -> Seq<char> {
    "{\"model\":"@ + quoted(r.model@) + ",\"messages\":["@ + json_of_message_list(r.messages@)
        + "],\"stream\":"@ + stream_text(r.stream) + format_part(r.format) + "}"@
}

fn append_message(out: &mut String, m: &Message)
    ensures
        final(out)@ == old(out)@ + json_of_message(*m),
{
    out.append("{\"role\":");
    append_quoted(out, m.role.name());
    out.append(",\"content\":");
    append_quoted(out, m.content.as_str());
    out.append("}");
    proof {
        assert(out@ =~= old(out)@ + json_of_message(*m));
    }
}

/// Encodes the request as the exact body text that is sent.
pub fn encode_chat_request(r: &ChatRequest) -> (s: String)
    ensures
        s@ == json_of_request(*r),
{
    let mut out = String::from_str("{\"model\":");
    append_quoted(&mut out, r.model.as_str());
    out.append(",\"messages\":[");
    let ghost head = "{\"model\":"@ + quoted(r.model@) + ",\"messages\":["@;
    proof {
        assert(out@ =~= head + json_of_message_list(r.messages@.take(0)));
    }
    let mut k: usize = 0;
    while k < r.messages.len()
        invariant
            k <= r.messages@.len(),
            out@ == head + json_of_message_list(r.messages@.take(k as int)),
        decreases r.messages@.len() - k,
    {
        let ghost pre = out@;
        if k > 0 {
            out.append(",");
        }
        append_message(&mut out, &r.messages[k]);
        proof {
            reveal_strlit(",");
            assert(","@ =~= seq![',']);
            assert(r.messages@.take(k + 1).drop_last() =~= r.messages@.take(k as int));
            assert(r.messages@.take(k + 1).last() == r.messages@[k as int]);
            if k > 0 {
                assert(out@ =~= pre + seq![','] + json_of_message(r.messages@[k as int]));
            }
            assert(out@ =~= head + json_of_message_list(r.messages@.take(k + 1)));
        }
        k = k + 1;
    }
    proof {
        assert(r.messages@.take(r.messages@.len() as int) =~= r.messages@);
    }
    out.append("],\"stream\":");
    if r.stream {
        out.append("true");
    } else {
        out.append("false");
    }
    match &r.format {
        Some(f) => {
            out.append(",\"format\":");
            append_quoted(&mut out, f.as_str());
        },
        None => {},
    }
    out.append("}");
    proof {
        assert(out@ =~= json_of_request(*r));
    }
    out
}

/// The JSON object of a message, from its parts.
pub open spec fn message_text(role: Seq<char>, content: Seq<char>) -> Seq<char> {
    "{\"role\":"@ + quoted(role) + ",\"content\":"@ + quoted(content) + "}"@
}

/// The message array of one invocation: the optional system message, then
/// the single user message.
pub open spec fn message_list_text(system: Option<Seq<char>>, prompt: Seq<char>) -> Seq<char> {
    match system {
        Some(s) => message_text("system"@, s) + seq![','] + message_text("user"@, prompt),
        None => message_text("user"@, prompt),
    }
}

/// The whole body of one invocation's chat request, from the resolved parts
/// alone: streaming off, the format hint present exactly when the JSON flag
/// is set.
pub open spec fn chat_body_text(
    model: Seq<char>,
    system: Option<Seq<char>>,
    prompt: Seq<char>,
    json_mode: bool,
) -> Seq<char> {
    "{\"model\":"@ + quoted(model) + ",\"messages\":["@ + message_list_text(system, prompt)
        + "],\"stream\":"@ + stream_text(false) + (if json_mode {
        ",\"format\":"@ + quoted("json"@)
    } else {
        Seq::<char>::empty()
    }) + "}"@
}

/// A request of the shape the builder makes encodes to exactly the body text
/// determined by the resolved parts.
pub proof fn lemma_request_body_shape(
    r: ChatRequest,
    model: Seq<char>,
    system: Option<Seq<char>>,
    prompt: Seq<char>,
    json_mode: bool,
)
    requires
        r.model@ == model,
        r.stream == false,
        json_mode ==> r.format is Some && r.format->0@ == "json"@,
        !json_mode ==> r.format is None,
        match system {
            Some(s) => r.messages@.len() == 2 && r.messages@[0].role
                == crate::request::Role::System && r.messages@[0].content@ == s
                && r.messages@[1].role == crate::request::Role::User && r.messages@[1].content@
                == prompt,
            None => r.messages@.len() == 1 && r.messages@[0].role == crate::request::Role::User
                && r.messages@[0].content@ == prompt,
        },
    ensures
        json_of_request(r) == chat_body_text(model, system, prompt, json_mode),
{
    let ms = r.messages@;
    match system {
        Some(s) => {
            assert(ms.drop_last().len() == 1);
            assert(ms.drop_last()[0] == ms[0]);
            assert(json_of_message_list(ms.drop_last()) == json_of_message(ms[0]));
            assert(json_of_message_list(ms) == json_of_message(ms[0]) + seq![',']
                + json_of_message(ms[1]));
            assert(json_of_message_list(ms) =~= message_list_text(system, prompt));
        },
        None => {
            assert(json_of_message_list(ms) == json_of_message(ms[0]));
        },
    }
    if json_mode {
        assert(format_part(r.format) == ",\"format\":"@ + quoted("json"@));
    }
    assert(json_of_request(r) =~= chat_body_text(model, system, prompt, json_mode));
}

/// The format field: with the JSON flag set the encoded body carries
/// `,"format":"json"` immediately before the closing brace; with the flag
/// unset the member is absent entirely and the body is the same text
/// otherwise.
pub proof fn lemma_format_field(with_json: ChatRequest, without: ChatRequest)
    requires
        with_json.model == without.model,
        with_json.messages == without.messages,
        with_json.stream == without.stream,
        with_json.format is Some && with_json.format->0@ == "json"@,
        without.format is None,
    ensures
        json_of_request(with_json) == json_of_request(without).take(
            json_of_request(without).len() - 1,
        ) + ",\"format\":\"json\""@ + "}"@,
{
    reveal_strlit("json");
    reveal_strlit("\"json\"");
    reveal_strlit(",\"format\":");
    reveal_strlit(",\"format\":\"json\"");
    reveal_strlit("}");
    assert forall|i: int| 0 <= i < "json"@.len() implies plain_char(#[trigger] "json"@[i]) by {}
    lemma_escaped_plain("json"@);
    assert(quoted("json"@) =~= "\"json\""@);
    assert(format_part(with_json.format) =~= ",\"format\":\"json\""@);
    assert(json_of_request(without).take(json_of_request(without).len() - 1) =~= "{\"model\":"@
        + quoted(without.model@) + ",\"messages\":["@ + json_of_message_list(without.messages@)
        + "],\"stream\":"@ + stream_text(without.stream));
    assert(json_of_request(with_json) =~= json_of_request(without).take(
        json_of_request(without).len() - 1,
    ) + ",\"format\":\"json\""@ + "}"@);
}

} // verus!
