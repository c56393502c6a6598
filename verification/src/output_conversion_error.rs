//! The error of output that could not be converted.

use vstd::prelude::*;
use vstd::string::StringExecFns;

use crate::command_display::cow_str;
use crate::command_display::CommandDisplay;
use crate::shell::shell_quoted;
use crate::utf8_program_and_args::CommandView;
use crate::utf8_program_and_args::Utf8ProgramAndArgs;

verus! {

/// ``Failed to convert `<program>` output: <reason>``, with the program
/// shell-quoted.
pub open spec fn conversion_failure_message(command: CommandView, reason: Seq<char>) -> Seq<
    char,
> {
    "Failed to convert `"@ + shell_quoted(command.program) + "` output: "@ + reason
}

/// An error produced when a command ran but its output could not be converted
/// to the type that was asked for, such as UTF-8 text.
#[derive(Debug)]
pub struct OutputConversionError {
    command: Utf8ProgramAndArgs,
    inner: String,
}

/// The mathematical value of an [`OutputConversionError`].
pub struct OutputConversionErrorView {
    /// The command whose output did not convert.
    pub command: CommandView,
    /// Why it did not.
    pub reason: Seq<char>,
}

impl OutputConversionErrorView {
    /// The message of the error.
    pub open spec fn message(self) -> Seq<char> {
        conversion_failure_message(self.command, self.reason)
    }
}

impl View for OutputConversionError {
    type V = OutputConversionErrorView;

    closed spec fn view(&self) -> OutputConversionErrorView {
        OutputConversionErrorView { command: self.command@, reason: self.inner@ }
    }
}

impl OutputConversionError {
    /// Construct a new [`OutputConversionError`] from the command and the
    /// reason that the conversion gave.
    pub fn new(command: Utf8ProgramAndArgs, inner: String) -> (error: Self)
        ensures
            error@ == (OutputConversionErrorView { command: command@, reason: inner@ }),
    {
        OutputConversionError { command, inner }
    }

    /// The command whose output did not convert.
    pub fn command(&self) -> (command: &Utf8ProgramAndArgs)
        ensures
            command@ == self@.command,
    {
        &self.command
    }

    /// The message: the command's program and the reason.
    pub fn to_string(&self) -> (message: String)
        ensures
            message@ == self@.message(),
    {
        let program = self.command.program_quoted();
        let mut message = "Failed to convert `".to_owned();
        message.append(cow_str(&program));
        message.append("` output: ");
        message.append(self.inner.as_str());
        message
    }
}

} // verus!
