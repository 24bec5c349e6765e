use ask_core::config::{chat_url, resolve_default_model, resolve_host, resolve_model};

#[test]
fn host_defaults_to_local() {
    assert_eq!(resolve_host(None), "http://localhost:11434");
    assert_eq!(resolve_host(Some(String::new())), "http://localhost:11434");
}

#[test]
fn host_override_wins() {
    assert_eq!(
        resolve_host(Some(String::from("http://example:1234"))),
        "http://example:1234"
    );
}

#[test]
fn default_model_falls_back_to_builtin() {
    assert_eq!(resolve_default_model(None), "gpt-oss:latest");
    assert_eq!(resolve_default_model(Some(String::new())), "gpt-oss:latest");
    assert_eq!(
        resolve_default_model(Some(String::from("custom:7b"))),
        "custom:7b"
    );
}

#[test]
fn cli_model_wins_unless_it_is_the_builtin() {
    assert_eq!(
        resolve_model(String::from("picked"), Some(String::from("custom:7b"))),
        "picked"
    );
    assert_eq!(
        resolve_model(String::from("gpt-oss:latest"), Some(String::from("custom:7b"))),
        "custom:7b"
    );
    assert_eq!(resolve_model(String::from("gpt-oss:latest"), None), "gpt-oss:latest");
}

#[test]
fn chat_endpoint_follows_the_host() {
    assert_eq!(chat_url("http://example:1234"), "http://example:1234/api/chat");
}
