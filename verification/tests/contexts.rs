use command_error::ChildContext;
use command_error::CommandDisplay;
use command_error::Error;
use command_error::ExitStatus;
use command_error::FromRawOutput;
use command_error::OutputContext;
use command_error::OutputLike;
use command_error::RawOutput;
use command_error::TryWaitContext;
use command_error::Utf8Output;
use command_error::Utf8ProgramAndArgs;

fn command(program: &str, args: &[&str]) -> Utf8ProgramAndArgs {
    Utf8ProgramAndArgs::new(
        program.to_string(),
        args.iter().map(|arg| arg.to_string()).collect(),
        None,
        Vec::new(),
    )
}

fn exited(code: i32) -> ExitStatus {
    ExitStatus::new(Some(code), None, format!("exit status: {}", code))
}

fn utf8(code: i32, stdout: &str, stderr: &str) -> Utf8Output {
    Utf8Output {
        status: exited(code),
        stdout: stdout.to_string(),
        stderr: stderr.to_string(),
    }
}

#[test]
fn exit_status_default_is_success() {
    let status = ExitStatus::default();
    assert!(status.success());
    assert_eq!(status.code(), Some(0));
    assert_eq!(status.signal(), None);
    assert_eq!(status.to_string(), "exit status: 0");
}

#[test]
fn exit_status_success_is_exit_code_zero() {
    assert!(exited(0).success());
    assert!(!exited(1).success());
    assert!(!exited(-1).success());
    assert!(!exited(255).success());
    let signalled = ExitStatus::new(None, Some(9), "signal: 9 (SIGKILL)".to_string());
    assert!(!signalled.success());
    assert_eq!(signalled.code(), None);
    assert_eq!(signalled.signal(), Some(9));
    assert_eq!(signalled.to_string(), "signal: 9 (SIGKILL)");
}

#[test]
fn exit_status_clone_is_equal() {
    let status = ExitStatus::new(Some(3), None, "exit status: 3".to_string());
    assert_eq!(status.clone(), status);
}

#[test]
fn exit_status_is_an_output_with_empty_streams() {
    let status = exited(4);
    assert_eq!(status.status(), exited(4));
    assert_eq!(status.stdout(), "");
    assert_eq!(status.stderr(), "");
}

#[test]
fn raw_output_is_read_lossily() {
    let output = RawOutput {
        status: exited(0),
        stdout: b"caf\xc3\xa9 \xff!".to_vec(),
        stderr: b"plain".to_vec(),
    };
    assert_eq!(output.status(), exited(0));
    assert_eq!(output.stdout(), "caf\u{e9} \u{fffd}!");
    assert_eq!(output.stderr(), "plain");
    assert_eq!(output.clone(), output);
}

#[test]
fn utf8_output_is_read_as_it_is() {
    let output = utf8(2, "caf\u{e9}\n", "oops");
    assert_eq!(output.status(), exited(2));
    assert_eq!(output.stdout(), "caf\u{e9}\n");
    assert_eq!(output.stderr(), "oops");
    assert_eq!(output.clone(), output);
}

#[test]
fn raw_output_converts_to_itself() {
    let output = RawOutput {
        status: exited(1),
        stdout: vec![0xff, 1, 2],
        stderr: vec![3],
    };
    let converted = RawOutput::from_raw_output(output.clone()).unwrap();
    assert_eq!(converted, output);
}

#[test]
fn utf8_output_converts_from_valid_bytes() {
    let output = RawOutput {
        status: exited(1),
        stdout: "na\u{ef}ve \u{1f436}\n".as_bytes().to_vec(),
        stderr: b"warn\n".to_vec(),
    };
    let converted = Utf8Output::from_raw_output(output).unwrap();
    assert_eq!(converted, utf8(1, "na\u{ef}ve \u{1f436}\n", "warn\n"));
}

#[test]
fn utf8_output_conversion_says_which_stream_failed() {
    let stdout = RawOutput {
        status: exited(0),
        stdout: b"puppy doggy \xc3\x28".to_vec(),
        stderr: Vec::new(),
    };
    assert_eq!(
        Utf8Output::from_raw_output(stdout).unwrap_err(),
        "Stdout contained invalid utf-8 sequence of 1 bytes from index 12: \
         \"puppy doggy \u{fffd}(\""
    );
    let stderr = RawOutput {
        status: exited(0),
        stdout: Vec::new(),
        stderr: b"\xe2\x28\xa1".to_vec(),
    };
    assert_eq!(
        Utf8Output::from_raw_output(stderr).unwrap_err(),
        "Stderr contained invalid utf-8 sequence of 1 bytes from index 0: \
         \"\u{fffd}(\u{fffd}\""
    );
}

#[test]
fn utf8_output_conversion_shows_a_window_of_long_output() {
    let mut stdout = Vec::new();
    for _ in 0..300 {
        stdout.extend(b"puppy ");
    }
    stdout[690] = 0xc0;
    let output = RawOutput {
        status: exited(0),
        stdout,
        stderr: Vec::new(),
    };
    let reason = Utf8Output::from_raw_output(output).unwrap_err();
    assert!(reason.starts_with(
        "Stdout contained invalid utf-8 sequence of 1 bytes from index 690: [178 bytes] \"y puppy"
    ));
    assert!(reason.ends_with("puppy pu\" [598 bytes]"));
    assert!(reason.contains("puppy \u{fffd}uppy puppy"));
}

#[test]
fn output_context_gives_its_parts() {
    let context = OutputContext::new(utf8(0, "out", "err"), command("echo", &["out"]));
    assert_eq!(context.output(), &utf8(0, "out", "err"));
    assert_eq!(context.status(), exited(0));
    assert_eq!(context.command().to_string(), "echo out");
    let (output, displayed) = context.into_output_and_command();
    assert_eq!(output, utf8(0, "out", "err"));
    assert_eq!(displayed, command("echo", &["out"]));
}

#[test]
fn output_context_is_consumed_into_output_or_command() {
    let context = OutputContext::new(exited(1), command("false", &[]));
    assert_eq!(context.into_output(), exited(1));
    let context = OutputContext::new(exited(1), command("false", &[]));
    assert_eq!(context.into_command(), command("false", &[]));
}

#[test]
fn output_context_error_has_no_message() {
    let context = OutputContext::new(utf8(1, "out\n", "err\n"), command("tool", &["-v"]));
    let error = context.error();
    assert!(matches!(error, Error::Output(_)));
    assert_eq!(
        error.to_string(),
        "`tool` failed: exit status: 1\n\
         Command failed: `tool -v`\n\
         Stdout:\n  out\n\
         Stderr:\n  err"
    );
}

#[test]
fn output_context_output_error_is_the_inner_error() {
    let context = OutputContext::new(exited(1), command("tool", &[]));
    let inner = context.output_error();
    assert_eq!(inner.message(), None);
    assert_eq!(inner.status(), &exited(1));
    assert_eq!(
        inner.to_string(),
        "`tool` failed: exit status: 1\nCommand failed: `tool`"
    );
}

#[test]
fn output_context_error_msg_attaches_the_message() {
    let context = OutputContext::new(exited(0), command("tool", &[]));
    let error = context.error_msg(format!("{} kitties", 3));
    assert_eq!(
        error.to_string(),
        "`tool` failed: 3 kitties\nexit status: 0\nCommand failed: `tool`"
    );
    let context = OutputContext::new(exited(0), command("tool", &[]));
    let error = context.error_text("3 kitties".to_string());
    assert_eq!(
        error.to_string(),
        "`tool` failed: 3 kitties\nexit status: 0\nCommand failed: `tool`"
    );
}

#[test]
fn output_context_maybe_error_msg_attaches_a_message_if_given() {
    let context = OutputContext::new(exited(2), command("tool", &[]));
    let error = context.maybe_error_msg(Some("bad"));
    assert_eq!(
        error.to_string(),
        "`tool` failed: bad\nexit status: 2\nCommand failed: `tool`"
    );
    let context = OutputContext::new(exited(2), command("tool", &[]));
    let error = context.maybe_error_msg(None::<String>);
    assert_eq!(
        error.to_string(),
        "`tool` failed: exit status: 2\nCommand failed: `tool`"
    );
}

#[test]
fn output_context_checked_follows_the_verdict() {
    let context = OutputContext::new(utf8(9, "x", ""), command("tool", &[]));
    let output = context.checked(Ok::<(), Option<String>>(())).unwrap();
    assert_eq!(output, utf8(9, "x", ""));
    let context = OutputContext::new(utf8(0, "x", ""), command("tool", &[]));
    let error = context.checked(Err(Some("no"))).unwrap_err();
    assert_eq!(
        error.to_string(),
        "`tool` failed: no\nexit status: 0\nCommand failed: `tool`\nStdout:\n  x"
    );
    let context = OutputContext::new(utf8(0, "x", ""), command("tool", &[]));
    let error = context.checked(Err(None::<String>)).unwrap_err();
    assert_eq!(
        error.to_string(),
        "`tool` failed: exit status: 0\nCommand failed: `tool`\nStdout:\n  x"
    );
}

#[test]
fn try_wait_context_gives_its_parts() {
    let running = TryWaitContext::new(None, command("sleep", &["9"]));
    assert_eq!(running.status(), None);
    assert_eq!(running.command().to_string(), "sleep 9");
    assert!(running.into_output_context().is_none());

    let ended = TryWaitContext::new(Some(exited(1)), command("sleep", &["9"]));
    assert_eq!(ended.status(), Some(exited(1)));
    let context = ended.into_output_context().unwrap();
    assert_eq!(context.status(), exited(1));
    assert_eq!(context.command().to_string(), "sleep 9");
    assert_eq!(
        context.error().to_string(),
        "`sleep` failed: exit status: 1\nCommand failed: `sleep 9`"
    );

    let ended = TryWaitContext::new(Some(exited(0)), command("sleep", &["9"]));
    assert_eq!(ended.into_command(), command("sleep", &["9"]));
}

#[test]
fn child_context_gives_its_parts() {
    let mut context = ChildContext::new(vec![1u8, 2], command("cat", &[]));
    assert_eq!(context.child(), &vec![1u8, 2]);
    context.child_mut().push(3);
    assert_eq!(context.child(), &vec![1u8, 2, 3]);
    assert_eq!(context.command().to_string(), "cat");
    assert_eq!(context.into_child(), vec![1u8, 2, 3]);
}
