use ask_core::outcome::{
    chat_failure, file_write_failure, file_written, handle_reply, list_failure, SinkStep,
};
use ask_core::plan::{needs_stdin, plan_invocation, CliArgs, Step};

fn base_args() -> CliArgs {
    CliArgs {
        prompt: vec![],
        model: String::from("gpt-oss:latest"),
        system: None,
        json: false,
        output: None,
        list_models: false,
        version: false,
    }
}

#[test]
fn empty_prompt_fails_without_any_network_step() {
    let step = plan_invocation(base_args(), None, None, None);
    match step {
        Step::Finish(o) => {
            assert_eq!(o.code, 1);
            assert_eq!(o.out, "");
            assert_eq!(
                o.err,
                "Error: No prompt provided\nUsage: ask [OPTIONS] <PROMPT>...\n"
            );
        }
        _ => panic!("an empty prompt must end the run before any request"),
    }
}

#[test]
fn blank_piped_input_counts_as_empty() {
    let step = plan_invocation(base_args(), None, None, Some(String::from("  \n\t ")));
    match step {
        Step::Finish(o) => assert_eq!(o.code, 1),
        _ => panic!("a blank stream must not reach the network"),
    }
}

#[test]
fn version_flag_short_circuits() {
    let mut args = base_args();
    args.version = true;
    let step = plan_invocation(args, None, None, None);
    match step {
        Step::Finish(o) => {
            assert_eq!(o.code, 0);
            assert_eq!(
                o.out,
                "ask v1.0.0 (Rust)\nHost: http://localhost:11434\nDefault model: gpt-oss:latest\n"
            );
            assert_eq!(o.err, "");
        }
        _ => panic!("the version path must not touch the network"),
    }
}

#[test]
fn listing_uses_the_overridden_host() {
    let mut args = base_args();
    args.list_models = true;
    let step = plan_invocation(args, Some(String::from("http://example:1234")), None, None);
    match step {
        Step::FetchModels { url } => assert_eq!(url, "http://example:1234/api/tags"),
        _ => panic!("the listing path must fetch the tags endpoint"),
    }
}

#[test]
fn chat_posts_to_the_resolved_host() {
    let mut args = base_args();
    args.prompt = vec![String::from("hello")];
    let step = plan_invocation(args, None, None, Some(String::from("world")));
    match step {
        Step::SendChat { url, body, output } => {
            assert_eq!(url, "http://localhost:11434/api/chat");
            assert_eq!(
                body,
                "{\"model\":\"gpt-oss:latest\",\"messages\":[{\"role\":\"user\",\"content\":\"hello\\n\\nContext:\\nworld\"}],\"stream\":false}"
            );
            assert_eq!(output, None);
        }
        _ => panic!("a non-empty prompt must reach the chat endpoint"),
    }
}

#[test]
fn environment_model_fills_the_default() {
    let mut args = base_args();
    args.prompt = vec![String::from("hi")];
    let step = plan_invocation(args, None, Some(String::from("custom:7b")), None);
    match step {
        Step::SendChat { body, .. } => assert!(body.starts_with("{\"model\":\"custom:7b\"")),
        _ => panic!("expected a chat step"),
    }
}

#[test]
fn explicit_model_beats_the_environment() {
    let mut args = base_args();
    args.prompt = vec![String::from("hi")];
    args.model = String::from("picked:latest");
    let step = plan_invocation(args, None, Some(String::from("custom:7b")), None);
    match step {
        Step::SendChat { body, .. } => assert!(body.starts_with("{\"model\":\"picked:latest\"")),
        _ => panic!("expected a chat step"),
    }
}

#[test]
fn stdin_is_only_read_on_the_chat_path() {
    let mut version_args = base_args();
    version_args.version = true;
    assert!(!needs_stdin(&version_args));
    let mut listing_args = base_args();
    listing_args.list_models = true;
    assert!(!needs_stdin(&listing_args));
    assert!(needs_stdin(&base_args()));
}

#[test]
fn reply_goes_to_the_named_file_byte_for_byte() {
    let step = handle_reply(
        String::from("the reply\nwith lines"),
        Some(String::from("out.txt")),
    );
    match step {
        SinkStep::WriteFile { path, contents } => {
            assert_eq!(path, "out.txt");
            assert_eq!(contents, "the reply\nwith lines");
        }
        _ => panic!("a named path must receive the reply"),
    }
    assert_eq!(file_written("out.txt").out, "Written to out.txt\n");
}

#[test]
fn reply_goes_to_stdout_with_one_newline() {
    let step = handle_reply(String::from("the reply"), None);
    match step {
        SinkStep::Emit(o) => {
            assert_eq!(o.out, "the reply\n");
            assert_eq!(o.err, "");
            assert_eq!(o.code, 0);
        }
        _ => panic!("without a path the reply must go to standard output"),
    }
}

#[test]
fn transport_failures_exit_one_with_clean_stdout() {
    for desc in [
        "Connection refused (os error 111)",
        "http://localhost:11434/api/chat: status code 500",
        "Failed to read JSON: expected value at line 1 column 1",
    ] {
        let o = chat_failure(desc);
        assert_eq!(o.code, 1);
        assert_eq!(o.out, "");
        assert_eq!(o.err, format!("Error: {}\n", desc));
    }
}

#[test]
fn listing_failures_exit_one() {
    let o = list_failure("Connection refused (os error 111)");
    assert_eq!(o.code, 1);
    assert_eq!(o.out, "");
    assert_eq!(o.err, "Error listing models: Connection refused (os error 111)\n");
}

#[test]
fn write_failures_name_the_path() {
    let o = file_write_failure("/nope/out.txt", "No such file or directory (os error 2)");
    assert_eq!(o.code, 1);
    assert_eq!(o.out, "");
    assert_eq!(
        o.err,
        "Error writing to /nope/out.txt: No such file or directory (os error 2)\n"
    );
}
