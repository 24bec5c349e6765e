use ask_core::compose::{compose_prompt, join_args, piped_context};

#[test]
fn joined_arguments_form_the_prompt() {
    let args = vec![
        String::from("hello"),
        String::from("big"),
        String::from("world"),
    ];
    let primary = join_args(&args);
    assert_eq!(primary, "hello big world");
    let prompt = compose_prompt(primary.as_str(), None);
    assert_eq!(prompt, "hello big world");
}

#[test]
fn single_argument_passes_through() {
    let args = vec![String::from("what is 2+2?")];
    let primary = join_args(&args);
    let prompt = compose_prompt(primary.as_str(), None);
    assert_eq!(prompt, "what is 2+2?");
}

#[test]
fn empty_arguments_join_to_empty() {
    let args: Vec<String> = vec![];
    assert_eq!(join_args(&args), "");
}

#[test]
fn piped_input_alone_is_the_prompt() {
    let context = piped_context("foo");
    assert_eq!(context.as_deref(), Some("foo"));
    let prompt = compose_prompt("", context.as_deref());
    assert_eq!(prompt, "foo");
}

#[test]
fn arguments_and_piped_input_compose_with_context_header() {
    let context = piped_context("world");
    let prompt = compose_prompt("hello", context.as_deref());
    assert_eq!(prompt, "hello\n\nContext:\nworld");
}

#[test]
fn piped_input_is_trimmed() {
    let context = piped_context("  \n\t world \r\n");
    assert_eq!(context.as_deref(), Some("world"));
}

#[test]
fn blank_piped_input_is_dropped() {
    assert_eq!(piped_context("   \n \t "), None);
    assert_eq!(piped_context(""), None);
}

#[test]
fn unicode_whitespace_is_trimmed() {
    let context = piped_context("\u{2000}x\u{3000}");
    assert_eq!(context.as_deref(), Some("x"));
}

#[test]
fn inner_whitespace_is_kept() {
    let context = piped_context(" a  b ");
    assert_eq!(context.as_deref(), Some("a  b"));
}
