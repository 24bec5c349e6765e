use ask_core::json::encode_chat_request;
use ask_core::request::{build_chat_request, Role};

#[test]
fn user_message_alone_without_system_prompt() {
    let r = build_chat_request(String::from("llama3"), String::from("hi"), None, false);
    assert_eq!(r.messages.len(), 1);
    assert!(r.messages[0].role == Role::User);
    assert_eq!(r.messages[0].content, "hi");
    assert_eq!(r.stream, false);
    assert!(r.format.is_none());
}

#[test]
fn system_message_precedes_user_message() {
    let r = build_chat_request(
        String::from("llama3"),
        String::from("hi"),
        Some(String::from("be brief")),
        false,
    );
    assert_eq!(r.messages.len(), 2);
    assert!(r.messages[0].role == Role::System);
    assert_eq!(r.messages[0].content, "be brief");
    assert!(r.messages[1].role == Role::User);
    assert_eq!(r.messages[1].content, "hi");
}

#[test]
fn body_without_flags_is_exact() {
    let r = build_chat_request(String::from("m"), String::from("hi"), None, false);
    let body = encode_chat_request(&r);
    assert_eq!(
        body,
        "{\"model\":\"m\",\"messages\":[{\"role\":\"user\",\"content\":\"hi\"}],\"stream\":false}"
    );
}

#[test]
fn body_with_system_and_json_is_exact() {
    let r = build_chat_request(
        String::from("llama"),
        String::from("hi"),
        Some(String::from("be brief")),
        true,
    );
    let body = encode_chat_request(&r);
    assert_eq!(
        body,
        "{\"model\":\"llama\",\"messages\":[{\"role\":\"system\",\"content\":\"be brief\"},{\"role\":\"user\",\"content\":\"hi\"}],\"stream\":false,\"format\":\"json\"}"
    );
}

#[test]
fn json_flag_adds_format_member() {
    let with = build_chat_request(String::from("m"), String::from("p"), None, true);
    let without = build_chat_request(String::from("m"), String::from("p"), None, false);
    let with_body = encode_chat_request(&with);
    let without_body = encode_chat_request(&without);
    assert!(with_body.contains("\"format\":\"json\""));
    assert!(!without_body.contains("format"));
    assert!(!without_body.contains("null"));
    let trimmed = &with_body[..with_body.len() - ",\"format\":\"json\"}".len()];
    assert_eq!(format!("{}}}", trimmed), without_body);
}

#[test]
fn string_escaping_matches_the_wire_format() {
    let r = build_chat_request(
        String::from("m"),
        String::from("a\"b\\c\nd\u{1}e\tf\ru\u{8}v\u{c}w"),
        None,
        false,
    );
    let body = encode_chat_request(&r);
    assert_eq!(
        body,
        "{\"model\":\"m\",\"messages\":[{\"role\":\"user\",\"content\":\"a\\\"b\\\\c\\nd\\u0001e\\tf\\ru\\bv\\fw\"}],\"stream\":false}"
    );
}

#[test]
fn non_ascii_text_is_not_escaped() {
    let r = build_chat_request(String::from("m"), String::from("héllo ☃"), None, false);
    let body = encode_chat_request(&r);
    assert!(body.contains("\"content\":\"héllo ☃\""));
}
