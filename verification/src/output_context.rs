//! The output of a finished command together with the command.

use vstd::prelude::*;
use vstd::string::to_string_from_display_ensures;

use crate::debug_display::DebugDisplay;
use crate::error::Error;
use crate::exit_status::ExitStatus;
use crate::output_error::OutputError;
use crate::output_error::OutputErrorView;
use crate::output_like::OutputLike;
use crate::utf8_program_and_args::Utf8ProgramAndArgs;

verus! {

/// Output combined with context about the command that produced it.
///
/// A context is made once for a finished command and used once: either the
/// output is taken out of it, or it is turned into an error that names the
/// command. Because an exit status is itself an output with empty streams,
/// this is also the context of checks that capture no output.
#[derive(Debug)]
pub struct OutputContext<O> {
    output: O,
    command: Utf8ProgramAndArgs,
}

/// The error that a context with `output` and `command` gives when no message
/// is attached.
pub open spec fn failure_of<O: OutputLike>(
    output: O,
    command: Utf8ProgramAndArgs,
) -> OutputErrorView {
    OutputErrorView {
        command: command@,
        status: output.status_view(),
        stdout: output.stdout_text(),
        stderr: output.stderr_text(),
        user_error: None,
    }
}

/// `error` says that `command` ran and failed with `output`, and carries no
/// message.
pub open spec fn is_plain_failure<O: OutputLike>(
    error: Error,
    command: Utf8ProgramAndArgs,
    output: O,
) -> bool {
    error matches Error::Output(error) && error@ == failure_of(output, command)
}

/// `error` says that `command` ran and failed with `output`, and carries what
/// `message` displays.
pub open spec fn is_failure_with<O: OutputLike, M: DebugDisplay>(
    error: Error,
    command: Utf8ProgramAndArgs,
    output: O,
    message: M,
) -> bool {
    error matches Error::Output(error) && exists|text: String| #[trigger]
        to_string_from_display_ensures::<M>(&message, text) && error@ == failure_of(
            output,
            command,
        ).with_message(text@)
}

/// `result` is what a check with the verdict `verdict` on `output` gives: the
/// output where the verdict is `Ok`, else an error for `command` and `output`
/// with the verdict's message, if it has one.
pub open spec fn follows_verdict<O: OutputLike, M: DebugDisplay>(
    result: Result<O, Error>,
    command: Utf8ProgramAndArgs,
    output: O,
    verdict: Result<(), Option<M>>,
) -> bool {
    match verdict {
        Ok(_) => result == Ok::<O, Error>(output),
        Err(None) => result matches Err(error) && is_plain_failure(error, command, output),
        Err(Some(message)) => result matches Err(error) && is_failure_with(
            error,
            command,
            output,
            message,
        ),
    }
}

impl<O> OutputContext<O> {
    /// The output in this context.
    pub closed spec fn output_value(self) -> O {
        self.output
    }

    /// The command in this context.
    pub closed spec fn command_value(self) -> Utf8ProgramAndArgs {
        self.command
    }
}

impl<O: OutputLike> OutputContext<O> {
    /// The error that this context gives when no message is attached.
    pub open spec fn failure(self) -> OutputErrorView {
        failure_of(self.output_value(), self.command_value())
    }

    /// Construct a new [`OutputContext`].
    pub fn new(output: O, command: Utf8ProgramAndArgs) -> (context: Self)
        ensures
            context.output_value() == output,
            context.command_value() == command,
    {
        OutputContext { output, command }
    }

    /// Get the output contained in this context object.
    pub fn into_output(self) -> (output: O)
        ensures
            output == self.output_value(),
    {
        self.output
    }

    /// Get a reference to the output contained in this context object.
    pub fn output(&self) -> (output: &O)
        ensures
            *output == self.output_value(),
    {
        &self.output
    }

    /// Get the command's exit status.
    pub fn status(&self) -> (status: ExitStatus)
        ensures
            status@ == self.output_value().status_view(),
    {
        self.output.status()
    }

    /// Get a reference to the command contained in this context object, for
    /// use in error messages or diagnostics.
    pub fn command(&self) -> (command: &Utf8ProgramAndArgs)
        ensures
            *command == self.command_value(),
    {
        &self.command
    }

    /// Get the command contained in this context object, for use in error
    /// messages or diagnostics.
    pub fn into_command(self) -> (command: Utf8ProgramAndArgs)
        ensures
            command == self.command_value(),
    {
        self.command
    }

    /// Get the output and command contained in this context object.
    pub fn into_output_and_command(self) -> (parts: (O, Utf8ProgramAndArgs))
        ensures
            parts.0 == self.output_value(),
            parts.1 == self.command_value(),
    {
        (self.output, self.command)
    }

    /// Construct an error that indicates this command failed, containing
    /// information about the command and its output.
    pub fn error(self) -> (error: Error)
        ensures
            is_plain_failure(error, self.command_value(), self.output_value()),
    {
        Error::Output(self.output_error())
    }

    /// Construct an error that indicates this command failed, containing
    /// information about the command and its output.
    ///
    /// This is like [`OutputContext::error`], but it returns the inner
    /// [`OutputError`] directly.
    pub fn output_error(self) -> (error: OutputError)
        ensures
            error@ == self.failure(),
    {
        OutputError::new(self.command, self.output)
    }

    /// Construct an error that indicates this command failed, containing
    /// information about the command, its output, and `message`, which is
    /// already rendered as text.
    pub fn error_text(self, message: String) -> (error: Error)
        ensures
            error matches Error::Output(inner) && inner@ == self.failure().with_message(message@),
    {
        Error::Output(self.output_error().with_message_text(message))
    }

    /// Construct an error that indicates this command failed, containing
    /// information about the command, its output, and the provided error
    /// message.
    pub fn error_msg<E: DebugDisplay>(self, message: E) -> (error: Error)
        ensures
            is_failure_with(error, self.command_value(), self.output_value(), message),
    {
        let text = message.to_string();
        proof {
            assert(to_string_from_display_ensures::<E>(&message, text));
        }
        self.error_text(text)
    }

    /// Construct an error that indicates this command failed, with `message`
    /// attached where there is one.
    pub fn maybe_error_msg<E: DebugDisplay>(self, message: Option<E>) -> (error: Error)
        ensures
            match message {
                Some(message) => is_failure_with(
                    error,
                    self.command_value(),
                    self.output_value(),
                    message,
                ),
                None => is_plain_failure(error, self.command_value(), self.output_value()),
            },
    {
        match message {
            Some(message) => self.error_msg(message),
            None => self.error(),
        }
    }

    /// The result of a check whose verdict on the output is `verdict`: the
    /// output where the verdict is `Ok`, else the error that indicates this
    /// command failed, with the verdict's message where it has one.
    pub fn checked<E: DebugDisplay>(self, verdict: Result<(), Option<E>>) -> (result: Result<
        O,
        Error,
    >)
        ensures
            follows_verdict(result, self.command_value(), self.output_value(), verdict),
    {
        match verdict {
            Ok(_) => Ok(self.into_output()),
            Err(message) => Err(self.maybe_error_msg(message)),
        }
    }
}

} // verus!
