//! The result of polling a command together with the command.

use vstd::prelude::*;

use crate::exit_status::ExitStatus;
use crate::exit_status::ExitStatusView;
use crate::output_context::OutputContext;
use crate::utf8_program_and_args::Utf8ProgramAndArgs;

verus! {

/// An optional [`ExitStatus`] combined with context about the command that
/// produced it: the status of a command that has ended, or `None` for one
/// that is still running.
#[derive(Debug)]
pub struct TryWaitContext {
    status: Option<ExitStatus>,
    command: Utf8ProgramAndArgs,
}

/// The view of an optional status.
pub open spec fn optional_status(status: Option<ExitStatus>) -> Option<ExitStatusView> {
    match status {
        Some(status) => Some(status@),
        None => None,
    }
}

impl TryWaitContext {
    /// The status in this context.
    pub closed spec fn status_value(self) -> Option<ExitStatus> {
        self.status
    }

    /// The command in this context.
    pub closed spec fn command_value(self) -> Utf8ProgramAndArgs {
        self.command
    }

    /// Construct a new [`TryWaitContext`] from what polling gave.
    pub fn new(status: Option<ExitStatus>, command: Utf8ProgramAndArgs) -> (context: Self)
        ensures
            context.status_value() == status,
            context.command_value() == command,
    {
        TryWaitContext { status, command }
    }

    /// Get the result of polling the command.
    pub fn status(&self) -> (status: Option<ExitStatus>)
        ensures
            optional_status(status) == optional_status(self.status_value()),
    {
        match &self.status {
            Some(status) => Some(status.clone()),
            None => None,
        }
    }

    /// Get a reference to the command contained in this context object, for
    /// use in error messages or diagnostics.
    pub fn command(&self) -> (command: &Utf8ProgramAndArgs)
        ensures
            *command == self.command_value(),
    {
        &self.command
    }

    /// Get the command contained in this context object, for use in error
    /// messages or diagnostics.
    pub fn into_command(self) -> (command: Utf8ProgramAndArgs)
        ensures
            command == self.command_value(),
    {
        self.command
    }

    /// If the [`ExitStatus`] is present, get an [`OutputContext`] for
    /// constructing error messages.
    pub fn into_output_context(self) -> (context: Option<OutputContext<ExitStatus>>)
        ensures
            match context {
                Some(context) => self.status_value() == Some(context.output_value())
                    && context.command_value() == self.command_value(),
                None => self.status_value() is None,
            },
    {
        match self.status {
            Some(status) => Some(OutputContext::new(status, self.command)),
            None => None,
        }
    }
}

} // verus!
