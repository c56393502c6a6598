//! Checks of a command that was started and is polled.
//!
//! Polling asks whether the process has ended, without waiting for it. Where
//! the caller waits for the process to end instead, with or without capturing
//! its output, the checks are those of [`crate::command_ext`].

use vstd::prelude::*;
use vstd::std_specs::convert::FromSpec;

use crate::command_ext::default_checked;
use crate::command_ext::passes_on;
use crate::error::Error;
use crate::exit_status::ExitStatus;
use crate::output_context::is_plain_failure;
use crate::try_wait_context::TryWaitContext;
use crate::utf8_program_and_args::Utf8ProgramAndArgs;
use crate::wait_error::WaitError;

verus! {

/// `error` says that `command` could not be polled because of `inner`.
pub open spec fn is_wait_failure(
    error: Error,
    command: Utf8ProgramAndArgs,
    inner: std::io::Error,
) -> bool {
    error matches Error::Wait(error) && error.command_view() == command@ && error.inner() == inner
}

/// `polled` is the context of polling `command` with the outcome `outcome`: a
/// wait failure where polling failed, else the context that holds the status,
/// if the process has ended, and the command.
pub open spec fn is_poll(
    polled: Result<TryWaitContext, Error>,
    command: Utf8ProgramAndArgs,
    outcome: Result<Option<ExitStatus>, std::io::Error>,
) -> bool {
    match outcome {
        Err(inner) => polled matches Err(error) && is_wait_failure(error, command, inner),
        Ok(status) => polled matches Ok(context) && context.status_value() == status
            && context.command_value() == command,
    }
}

/// The context of polling `command` with the outcome `outcome`.
pub fn get_poll(
    command: Utf8ProgramAndArgs,
    outcome: Result<Option<ExitStatus>, std::io::Error>,
) -> (polled: Result<TryWaitContext, Error>)
    ensures
        is_poll(polled, command, outcome),
{
    match outcome {
        Ok(status) => Ok(TryWaitContext::new(status, command)),
        Err(inner) => Err(Error::Wait(WaitError::new(command, inner))),
    }
}

/// Checks one poll of `command`. `succeeded` is called with the context of the
/// poll and what it returns is returned. Polling that failed is a wait
/// failure, converted to the caller's error type.
pub fn try_wait_checked_as<R, E, F>(
    command: Utf8ProgramAndArgs,
    outcome: Result<Option<ExitStatus>, std::io::Error>,
    succeeded: F,
) -> (result: Result<R, E>) where E: From<Error>, F: Fn(TryWaitContext) -> Result<R, E>
    requires
        forall|context: TryWaitContext|
            is_poll(Ok::<TryWaitContext, Error>(context), command, outcome) ==> call_requires(
                succeeded,
                (context,),
            ),
    ensures
        exists|polled: Result<TryWaitContext, Error>| #[trigger]
            is_poll(polled, command, outcome) && match polled {
                Ok(context) => call_ensures(succeeded, (context,), result),
                Err(error) => passes_on(result, error),
            },
{
    let polled = get_poll(command, outcome);
    proof {
        assert(is_poll(polled, command, outcome));
    }
    match polled {
        Ok(context) => succeeded(context),
        Err(error) => Err(E::from(error)),
    }
}

/// What the default check makes of a poll that gave `status`: `None` while the
/// process runs, its status once it has exited with code zero, and an error
/// without a message once it has ended otherwise.
pub open spec fn follows_default_poll(
    result: Result<Option<ExitStatus>, Error>,
    command: Utf8ProgramAndArgs,
    status: Option<ExitStatus>,
) -> bool {
    match status {
        None => result == Ok::<Option<ExitStatus>, Error>(None),
        Some(status) => if status@.success() {
            result == Ok::<Option<ExitStatus>, Error>(Some(status))
        } else {
            result matches Err(error) && is_plain_failure(error, command, status)
        },
    }
}

/// The default check of a poll: a process that still runs is no failure, and
/// one that has ended succeeded if and only if it exited with code zero.
pub fn default_poll_checked(context: TryWaitContext) -> (result: Result<Option<ExitStatus>, Error>)
    ensures
        follows_default_poll(result, context.command_value(), context.status_value()),
{
    match context.into_output_context() {
        Some(context) => match default_checked(context) {
            Ok(status) => Ok(Some(status)),
            Err(error) => Err(error),
        },
        None => Ok(None),
    }
}

/// Checks one poll of `command`: `None` while the process runs, its status
/// once it has exited with code zero, and an error once it has ended
/// otherwise.
pub fn try_wait_checked(
    command: Utf8ProgramAndArgs,
    outcome: Result<Option<ExitStatus>, std::io::Error>,
) -> (result: Result<Option<ExitStatus>, Error>)
    ensures
        match outcome {
            Err(inner) => result matches Err(error) && is_wait_failure(error, command, inner),
            Ok(status) => follows_default_poll(result, command, status),
        },
{
    match get_poll(command, outcome) {
        Ok(context) => default_poll_checked(context),
        Err(error) => Err(error),
    }
}

} // verus!
