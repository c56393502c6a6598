//! The error of a command that could not be waited for.

use vstd::prelude::*;
use vstd::string::to_string_from_display_ensures;
use vstd::string::StringExecFns;

use crate::command_display::cow_str;
use crate::command_display::CommandDisplay;
use crate::shell::shell_quoted;
use crate::utf8_program_and_args::CommandView;
use crate::utf8_program_and_args::Utf8ProgramAndArgs;

verus! {

/// ``Failed to wait for `<program>`: <reason>``, with the program
/// shell-quoted.
pub open spec fn wait_failure_message(command: CommandView, reason: Seq<char>) -> Seq<char> {
    "Failed to wait for `"@ + shell_quoted(command.program) + "`: "@ + reason
}

/// An error from failing to wait for a command that was started.
#[derive(Debug)]
pub struct WaitError {
    command: Utf8ProgramAndArgs,
    inner: std::io::Error,
}

impl WaitError {
    /// The command that could not be waited for.
    pub closed spec fn command_view(&self) -> CommandView {
        self.command@
    }

    /// The operating system's error.
    pub closed spec fn inner(&self) -> std::io::Error {
        self.inner
    }

    /// Construct a new [`WaitError`].
    pub fn new(command: Utf8ProgramAndArgs, inner: std::io::Error) -> (error: Self)
        ensures
            error.command_view() == command@,
            error.inner() == inner,
    {
        WaitError { command, inner }
    }

    /// The command that could not be waited for.
    pub fn command(&self) -> (command: &Utf8ProgramAndArgs)
        ensures
            command@ == self.command_view(),
    {
        &self.command
    }

    /// The message for waiting for `command` failing for `reason`.
    pub fn message_for(command: &Utf8ProgramAndArgs, reason: &str) -> (message: String)
        ensures
            message@ == wait_failure_message(command@, reason@),
    {
        let program = command.program_quoted();
        let mut message = "Failed to wait for `".to_owned();
        message.append(cow_str(&program));
        message.append("`: ");
        message.append(reason);
        message
    }

    /// The message: the command's program, and the operating system's error as
    /// it displays itself.
    pub fn to_string(&self) -> (message: String)
        ensures
            exists|reason: String| #[trigger]
                to_string_from_display_ensures::<std::io::Error>(&self.inner(), reason) && message@
                    == wait_failure_message(self.command_view(), reason@),
    {
        let reason = self.inner.to_string();
        let message = Self::message_for(&self.command, reason.as_str());
        proof {
            assert(to_string_from_display_ensures::<std::io::Error>(&self.inner(), reason));
        }
        message
    }
}

} // verus!
