//! The error of a command that could not be run.

use vstd::prelude::*;
use vstd::string::to_string_from_display_ensures;
use vstd::string::StringExecFns;

use crate::command_display::cow_str;
use crate::command_display::CommandDisplay;
use crate::shell::shell_quoted;
use crate::utf8_program_and_args::CommandView;
use crate::utf8_program_and_args::Utf8ProgramAndArgs;

verus! {

#[verifier::external_type_specification]
#[verifier::external_body]
pub struct ExIoError(std::io::Error);

/// ``Failed to execute `<program>`: <reason>``, with the program shell-quoted.
pub open spec fn exec_failure_message(command: CommandView, reason: Seq<char>) -> Seq<char> {
    "Failed to execute `"@ + shell_quoted(command.program) + "`: "@ + reason
}

/// `Is <program> installed and present on your $PATH?`, with the program
/// shell-quoted.
pub open spec fn exec_failure_help(command: CommandView) -> Seq<char> {
    "Is "@ + shell_quoted(command.program) + " installed and present on your $PATH?"@
}

/// An error from failing to execute a command.
///
/// This is a command that fails to start, rather than a command that exits
/// with a non-zero status or similar.
#[derive(Debug)]
pub struct ExecError {
    command: Utf8ProgramAndArgs,
    inner: std::io::Error,
}

impl ExecError {
    /// The command that could not be run.
    pub closed spec fn command_view(&self) -> CommandView {
        self.command@
    }

    /// The operating system's error.
    pub closed spec fn inner(&self) -> std::io::Error {
        self.inner
    }

    /// Construct a new [`ExecError`].
    pub fn new(command: Utf8ProgramAndArgs, inner: std::io::Error) -> (error: Self)
        ensures
            error.command_view() == command@,
            error.inner() == inner,
    {
        ExecError { command, inner }
    }

    /// The command that could not be run.
    pub fn command(&self) -> (command: &Utf8ProgramAndArgs)
        ensures
            command@ == self.command_view(),
    {
        &self.command
    }

    /// The message for `command` failing to run for `reason`.
    pub fn message_for(command: &Utf8ProgramAndArgs, reason: &str) -> (message: String)
        ensures
            message@ == exec_failure_message(command@, reason@),
    {
        let program = command.program_quoted();
        let mut message = "Failed to execute `".to_owned();
        message.append(cow_str(&program));
        message.append("`: ");
        message.append(reason);
        message
    }

    /// The message: the command's program, and the operating system's error as
    /// it displays itself.
    pub fn to_string(&self) -> (message: String)
        ensures
            exists|reason: String| #[trigger]
                to_string_from_display_ensures::<std::io::Error>(&self.inner(), reason) && message@
                    == exec_failure_message(self.command_view(), reason@),
    {
        let reason = self.inner.to_string();
        let message = Self::message_for(&self.command, reason.as_str());
        proof {
            assert(to_string_from_display_ensures::<std::io::Error>(&self.inner(), reason));
        }
        message
    }

    /// A hint for the reader of the message.
    pub fn help(&self) -> (hint: Option<String>)
        ensures
            hint matches Some(hint) && hint@ == exec_failure_help(self.command_view()),
    {
        let program = self.command.program_quoted();
        let mut hint = "Is ".to_owned();
        hint.append(cow_str(&program));
        hint.append(" installed and present on your $PATH?");
        Some(hint)
    }
}

} // verus!
