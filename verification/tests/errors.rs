use command_error::CommandDisplay;
use command_error::Error;
use command_error::ExecError;
use command_error::ExitStatus;
use command_error::FromRawOutput;
use command_error::OutputConversionError;
use command_error::OutputError;
use command_error::RawOutput;
use command_error::Utf8Output;
use command_error::Utf8ProgramAndArgs;
use command_error::WaitError;

fn words(items: &[&str]) -> Vec<String> {
    items.iter().map(|item| item.to_string()).collect()
}

fn command(program: &str, args: &[&str]) -> Utf8ProgramAndArgs {
    Utf8ProgramAndArgs::new(program.to_string(), words(args), None, Vec::new())
}

fn exited(code: i32) -> ExitStatus {
    ExitStatus::new(Some(code), None, format!("exit status: {}", code))
}

fn raw(status: ExitStatus, stdout: &str, stderr: &str) -> RawOutput {
    RawOutput {
        status,
        stdout: stdout.as_bytes().to_vec(),
        stderr: stderr.as_bytes().to_vec(),
    }
}

#[test]
fn exec_error_message_names_program_and_reason() {
    let error = ExecError::new(
        command("echo", &["puppy doggy"]),
        std::io::Error::new(std::io::ErrorKind::NotFound, "File not found (os error 2)"),
    );
    assert_eq!(
        error.to_string(),
        "Failed to execute `echo`: File not found (os error 2)"
    );
}

#[test]
fn exec_error_quotes_the_program() {
    let error = ExecError::new(
        command("ooga booga", &[]),
        std::io::Error::new(std::io::ErrorKind::Other, "nope"),
    );
    assert_eq!(error.to_string(), "Failed to execute `'ooga booga'`: nope");
    assert_eq!(error.command().to_string(), "'ooga booga'");
}

#[test]
fn exec_error_message_for_is_exact() {
    let displayed = command("ooby-gooby", &[]);
    assert_eq!(
        ExecError::message_for(&displayed, "No such file or directory (os error 2)"),
        "Failed to execute `ooby-gooby`: No such file or directory (os error 2)"
    );
}

#[test]
fn exec_error_help_asks_for_the_program() {
    let error = ExecError::new(
        command("ooby-gooby", &[]),
        std::io::Error::new(std::io::ErrorKind::NotFound, "missing"),
    );
    assert_eq!(
        error.help(),
        Some("Is ooby-gooby installed and present on your $PATH?".to_string())
    );
}

#[test]
fn wait_error_message_names_program_and_reason() {
    let error = WaitError::new(
        command("echo", &["puppy doggy"]),
        std::io::Error::new(std::io::ErrorKind::NotFound, "File not found (os error 2)"),
    );
    assert_eq!(
        error.to_string(),
        "Failed to wait for `echo`: File not found (os error 2)"
    );
    assert_eq!(
        WaitError::message_for(error.command(), "gone"),
        "Failed to wait for `echo`: gone"
    );
}

#[test]
fn conversion_error_message_names_program_and_reason() {
    let error = OutputConversionError::new(command("sh", &["-c", "x"]), "not a number".to_string());
    assert_eq!(
        error.to_string(),
        "Failed to convert `sh` output: not a number"
    );
    assert_eq!(error.command().to_string(), "sh -c x");
}

#[test]
fn conversion_error_for_invalid_utf8_names_the_byte_offset() {
    let mut output = raw(ExitStatus::default(), "puppy doggy\n", "");
    output.stdout[5] = 0xc0;
    let reason = Utf8Output::from_raw_output(output).unwrap_err();
    let error = OutputConversionError::new(command("sh", &["-c", "echo puppy doggy"]), reason);
    assert_eq!(
        error.to_string(),
        "Failed to convert `sh` output: \
         Stdout contained invalid utf-8 sequence of 1 bytes from index 5: \
         \"puppy\u{fffd}doggy\\n\""
    );
}

#[test]
fn output_error_shows_status_command_and_stdout() {
    let error = OutputError::new(
        command("sh", &["-c", "echo puppy doggy"]),
        raw(ExitStatus::default(), "puppy doggy\n", ""),
    );
    assert_eq!(
        error.to_string(),
        "`sh` failed: exit status: 0\n\
         Command failed: `sh -c 'echo puppy doggy'`\n\
         Stdout:\n  puppy doggy"
    );
}

#[test]
fn output_error_with_message_puts_it_before_the_status() {
    let error = OutputError::new(
        command("sh", &["-c", "echo puppy doggy"]),
        raw(ExitStatus::default(), "puppy doggy\n", ""),
    );
    assert_eq!(
        error.with_message(Box::new("no kitties found!")).to_string(),
        "`sh` failed: no kitties found!\n\
         exit status: 0\n\
         Command failed: `sh -c 'echo puppy doggy'`\n\
         Stdout:\n  puppy doggy"
    );
}

#[test]
fn output_error_with_message_text_is_the_same_as_with_message() {
    let make = || {
        OutputError::new(
            command("nix", &["build", ".#default"]),
            raw(exited(1), "", "error: flake not found\n"),
        )
    };
    let by_value = make().with_message("output didn't contain a valid store path");
    let by_text = make().with_message_text("output didn't contain a valid store path".to_string());
    assert_eq!(by_value.to_string(), by_text.to_string());
    assert_eq!(
        by_text.to_string(),
        "`nix` failed: output didn't contain a valid store path\n\
         exit status: 1\n\
         Command failed: `nix build '.#default'`\n\
         Stderr:\n  error: flake not found"
    );
}

#[test]
fn output_error_without_message_drops_it() {
    let error = OutputError::new(command("false", &[]), exited(1))
        .with_message("first")
        .with_message("second");
    assert_eq!(error.message(), Some("second"));
    let error = error.without_message();
    assert_eq!(error.message(), None);
    assert_eq!(
        error.to_string(),
        "`false` failed: exit status: 1\nCommand failed: `false`"
    );
}

#[test]
fn output_error_shows_both_streams_with_every_line_indented() {
    let error = OutputError::new(
        command("make", &["all"]),
        raw(exited(2), "\n  one\ntwo\r\n\nthree  \n\n", " \twarn: a\nwarn: b\n"),
    );
    assert_eq!(
        error.to_string(),
        "`make` failed: exit status: 2\n\
         Command failed: `make all`\n\
         Stdout:\n  one\n  two\n  \n  three\n\
         Stderr:\n  warn: a\n  warn: b"
    );
}

#[test]
fn output_error_omits_streams_that_are_only_whitespace() {
    let error = OutputError::new(
        command("sh", &["-c", "exit 3"]),
        raw(exited(3), " \n\t\r\n", "\u{a0}\u{2003}\n"),
    );
    assert_eq!(
        error.to_string(),
        "`sh` failed: exit status: 3\nCommand failed: `sh -c 'exit 3'`"
    );
}

#[test]
fn output_error_omits_empty_streams() {
    let error = OutputError::new(command("sh", &["-c", "exit 1"]), exited(1));
    assert_eq!(
        error.to_string(),
        "`sh` failed: exit status: 1\nCommand failed: `sh -c 'exit 1'`"
    );
    assert_eq!(error.stdout(), "");
    assert_eq!(error.stderr(), "");
}

#[test]
fn output_error_trims_unicode_whitespace_around_output() {
    let error = OutputError::new(
        command("cat", &[]),
        raw(exited(1), "\u{2003}\u{a0}kitty\u{3000}\n", ""),
    );
    assert_eq!(
        error.to_string(),
        "`cat` failed: exit status: 1\nCommand failed: `cat`\nStdout:\n  kitty"
    );
}

#[test]
fn output_error_decodes_raw_output_lossily() {
    let output = RawOutput {
        status: exited(1),
        stdout: vec![b'p', b'u', 0xff, b'p'],
        stderr: vec![0xc3, 0x28],
    };
    let error = OutputError::new(command("cat", &[]), output);
    assert_eq!(error.stdout(), "pu\u{fffd}p");
    assert_eq!(error.stderr(), "\u{fffd}(");
    assert_eq!(
        error.to_string(),
        "`cat` failed: exit status: 1\n\
         Command failed: `cat`\n\
         Stdout:\n  pu\u{fffd}p\n\
         Stderr:\n  \u{fffd}("
    );
}

#[test]
fn output_error_shows_signal_status_line() {
    let status = ExitStatus::new(None, Some(9), "signal: 9 (SIGKILL)".to_string());
    let error = OutputError::new(
        command("sh", &["-c", "echo kitty && kill -9 \"$$\""]),
        Utf8Output {
            status,
            stdout: "kitty\n".to_string(),
            stderr: String::new(),
        },
    )
    .with_message("didn't find any puppy!");
    assert_eq!(
        error.to_string(),
        "`sh` failed: didn't find any puppy!\n\
         signal: 9 (SIGKILL)\n\
         Command failed: `sh -c 'echo kitty && kill -9 \"$$\"'`\n\
         Stdout:\n  kitty"
    );
    assert_eq!(error.status().signal(), Some(9));
    assert_eq!(error.status().code(), None);
}

#[test]
fn output_error_quotes_program_in_first_line() {
    let error = OutputError::new(command("my tool", &["x y"]), exited(1));
    assert_eq!(
        error.to_string(),
        "`'my tool'` failed: exit status: 1\nCommand failed: `'my tool' 'x y'`"
    );
}

#[test]
fn output_error_includes_directory_and_environment_in_command_line() {
    let displayed = Utf8ProgramAndArgs::new(
        "echo".to_string(),
        words(&["doggy"]),
        Some("/puppy".to_string()),
        vec![("COLOR".to_string(), Some("GOLDEN".to_string()))],
    );
    let error = OutputError::new(displayed, exited(1));
    assert_eq!(
        error.to_string(),
        "`echo` failed: exit status: 1\nCommand failed: `cd /puppy && COLOR=GOLDEN echo doggy`"
    );
}

#[test]
fn output_error_rendering_is_repeatable() {
    let error = OutputError::new(
        command("sh", &["-c", "echo puppy; false"]),
        raw(exited(1), "puppy\n", "oh no\n"),
    )
    .with_message("bad dog");
    let first = error.to_string();
    let second = error.to_string();
    assert_eq!(first, second);
    assert_eq!(first.as_bytes(), second.as_bytes());
}

#[test]
fn output_error_accessors_give_the_parts() {
    let error = OutputError::new(
        command("sh", &["-c", "true"]),
        raw(exited(4), "out\n", "err\n"),
    );
    assert_eq!(error.command().to_string(), "sh -c true");
    assert_eq!(error.status().code(), Some(4));
    assert_eq!(error.status().success(), false);
    assert_eq!(error.stdout(), "out\n");
    assert_eq!(error.stderr(), "err\n");
    assert_eq!(error.message(), None);
}

#[test]
fn error_message_is_that_of_its_kind() {
    let exec = Error::from(ExecError::new(
        command("a", &[]),
        std::io::Error::new(std::io::ErrorKind::Other, "x"),
    ));
    assert!(matches!(exec, Error::Exec(_)));
    assert_eq!(exec.to_string(), "Failed to execute `a`: x");

    let wait = Error::from(WaitError::new(
        command("b", &[]),
        std::io::Error::new(std::io::ErrorKind::Other, "y"),
    ));
    assert!(matches!(wait, Error::Wait(_)));
    assert_eq!(wait.to_string(), "Failed to wait for `b`: y");

    let output = Error::from(OutputError::new(command("c", &[]), exited(1)));
    assert!(matches!(output, Error::Output(_)));
    assert_eq!(
        output.to_string(),
        "`c` failed: exit status: 1\nCommand failed: `c`"
    );

    let conversion = Error::from(OutputConversionError::new(command("d", &[]), "z".to_string()));
    assert!(matches!(conversion, Error::Conversion(_)));
    assert_eq!(conversion.to_string(), "Failed to convert `d` output: z");
}

#[test]
fn only_exec_errors_have_help() {
    let exec = Error::from(ExecError::new(
        command("my prog", &[]),
        std::io::Error::new(std::io::ErrorKind::NotFound, "x"),
    ));
    assert_eq!(
        exec.help(),
        Some("Is 'my prog' installed and present on your $PATH?".to_string())
    );
    let wait = Error::from(WaitError::new(
        command("b", &[]),
        std::io::Error::new(std::io::ErrorKind::Other, "y"),
    ));
    assert_eq!(wait.help(), None);
    let output = Error::from(OutputError::new(command("c", &[]), exited(1)));
    assert_eq!(output.help(), None);
    let conversion = Error::from(OutputConversionError::new(command("d", &[]), "z".to_string()));
    assert_eq!(conversion.help(), None);
}

#[test]
fn errors_can_cross_threads() {
    fn check<T: Send + Sync>() {}
    check::<Error>();
    check::<ExecError>();
    check::<WaitError>();
    check::<OutputError>();
    check::<OutputConversionError>();
}
