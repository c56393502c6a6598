//! Checks of a command that was run to its end.
//!
//! Running a command is the caller's part: it hands over the command and what
//! running it gave, either the result or the operating system's error. The
//! functions here decide what that means: the value that the caller asked for,
//! or the error that explains the failure.

use vstd::prelude::*;
use vstd::std_specs::convert::FromSpec;

use crate::child_context::ChildContext;
use crate::debug_display::DebugDisplay;
use crate::error::Error;
use crate::exec_error::ExecError;
use crate::exit_status::ExitStatus;
use crate::output_context::follows_verdict;
use crate::output_context::is_plain_failure;
use crate::output_context::OutputContext;
use crate::output_conversion_error::OutputConversionError;
use crate::output_conversion_error::OutputConversionErrorView;
use crate::output_error::lemma_message_names_command;
use crate::output_like::OutputLike;
use crate::raw_output::FromRawOutput;
use crate::raw_output::RawOutput;
use crate::utf8_output::Utf8Output;
use crate::utf8_program_and_args::Utf8ProgramAndArgs;

verus! {

/// `error` says that `command` could not be run because of `inner`.
pub open spec fn is_exec_failure(
    error: Error,
    command: Utf8ProgramAndArgs,
    inner: std::io::Error,
) -> bool {
    error matches Error::Exec(error) && error.command_view() == command@ && error.inner() == inner
}

/// `error` says that the output of `command` did not convert, for `reason`.
pub open spec fn is_conversion_failure(
    error: Error,
    command: Utf8ProgramAndArgs,
    reason: Seq<char>,
) -> bool {
    error matches Error::Conversion(error) && error@ == (OutputConversionErrorView {
        command: command@,
        reason,
    })
}

/// `captured` is the context of a run of `command` that gave `outcome`: an
/// execution failure where the command could not be run, a conversion failure
/// where its output does not convert to `O`, and else the context that holds
/// the converted output and the command.
pub open spec fn is_capture<O: OutputLike + FromRawOutput>(
    captured: Result<OutputContext<O>, Error>,
    command: Utf8ProgramAndArgs,
    outcome: Result<RawOutput, std::io::Error>,
) -> bool {
    match outcome {
        Err(inner) => captured matches Err(error) && is_exec_failure(error, command, inner),
        Ok(raw) => match O::converted(raw@) {
            Err(reason) => captured matches Err(error) && is_conversion_failure(
                error,
                command,
                reason,
            ),
            Ok(output) => captured matches Ok(context) && context.output_value()@ == output
                && context.command_value() == command,
        },
    }
}

/// `captured` is the context of a run of `command` without capture that gave
/// `outcome`.
pub open spec fn is_status_capture(
    captured: Result<OutputContext<ExitStatus>, Error>,
    command: Utf8ProgramAndArgs,
    outcome: Result<ExitStatus, std::io::Error>,
) -> bool {
    match outcome {
        Err(inner) => captured matches Err(error) && is_exec_failure(error, command, inner),
        Ok(status) => captured matches Ok(context) && context.output_value() == status
            && context.command_value() == command,
    }
}

/// The context of a run of `command` that gave `outcome`, with the output
/// converted to `O`.
pub fn get_output_as<O: OutputLike + FromRawOutput>(
    command: Utf8ProgramAndArgs,
    outcome: Result<RawOutput, std::io::Error>,
) -> (captured: Result<OutputContext<O>, Error>)
    ensures
        is_capture(captured, command, outcome),
{
    match outcome {
        Ok(raw) => match O::from_raw_output(raw) {
            Ok(output) => Ok(OutputContext::new(output, command)),
            Err(reason) => Err(Error::Conversion(OutputConversionError::new(command, reason))),
        },
        Err(inner) => Err(Error::Exec(ExecError::new(command, inner))),
    }
}

/// The context of a run of `command` without capture that gave `outcome`.
pub fn get_status(command: Utf8ProgramAndArgs, outcome: Result<ExitStatus, std::io::Error>) -> (captured:
    Result<OutputContext<ExitStatus>, Error>)
    ensures
        is_status_capture(captured, command, outcome),
{
    match outcome {
        Ok(status) => Ok(OutputContext::new(status, command)),
        Err(inner) => Err(Error::Exec(ExecError::new(command, inner))),
    }
}

/// What starting `command` gave: the child together with the command, or an
/// execution failure where the command could not be started.
pub fn spawn_checked<C>(command: Utf8ProgramAndArgs, outcome: Result<C, std::io::Error>) -> (result:
    Result<ChildContext<C>, Error>)
    ensures
        match outcome {
            Ok(child) => result matches Ok(context) && context.child_value() == child
                && context.command_value() == command,
            Err(inner) => result matches Err(error) && is_exec_failure(error, command, inner),
        },
{
    match outcome {
        Ok(child) => Ok(ChildContext::new(child, command)),
        Err(inner) => Err(Error::Exec(ExecError::new(command, inner))),
    }
}

/// `result` carries `error` on, converted to the caller's error type.
pub open spec fn passes_on<R, E: From<Error>>(result: Result<R, E>, error: Error) -> bool {
    result matches Err(converted) && (E::obeys_from_spec() ==> converted == E::from_spec(error))
}

/// Checks a run of `command` that captured output. `succeeded` is called with
/// the context of the run and what it returns is returned.
///
/// This is the most general check: the caller decides what success is, and
/// what is returned for success and for failure. `succeeded` is called if and
/// only if the command ran and its output converted to `O`; else the error is
/// handed on, converted to the caller's error type.
pub fn output_checked_as<O, R, E, F>(
    command: Utf8ProgramAndArgs,
    outcome: Result<RawOutput, std::io::Error>,
    succeeded: F,
) -> (result: Result<R, E>) where
    O: OutputLike + FromRawOutput,
    E: From<Error>,
    F: Fn(OutputContext<O>) -> Result<R, E>,

    requires
        forall|context: OutputContext<O>|
            is_capture(Ok::<OutputContext<O>, Error>(context), command, outcome) ==> call_requires(
                succeeded,
                (context,),
            ),
    ensures
        exists|captured: Result<OutputContext<O>, Error>| #[trigger]
            is_capture(captured, command, outcome) && match captured {
                Ok(context) => call_ensures(succeeded, (context,), result),
                Err(error) => passes_on(result, error),
            },
{
    let captured = get_output_as::<O>(command, outcome);
    proof {
        assert(is_capture(captured, command, outcome));
    }
    match captured {
        Ok(context) => succeeded(context),
        Err(error) => Err(E::from(error)),
    }
}

/// Checks a run of `command` that captured output. `succeeded` is called with
/// the converted output and decides whether the command succeeded; where it
/// did not, the message that `succeeded` gives, if any, is attached to the
/// error.
pub fn output_checked_with<O, M, F>(
    command: Utf8ProgramAndArgs,
    outcome: Result<RawOutput, std::io::Error>,
    succeeded: F,
) -> (result: Result<O, Error>) where
    O: OutputLike + FromRawOutput,
    M: DebugDisplay,
    F: Fn(&O) -> Result<(), Option<M>>,

    requires
        forall|context: OutputContext<O>|
            is_capture(Ok::<OutputContext<O>, Error>(context), command, outcome) ==> call_requires(
                succeeded,
                (&context.output_value(),),
            ),
    ensures
        exists|captured: Result<OutputContext<O>, Error>| #[trigger]
            is_capture(captured, command, outcome) && match captured {
                Ok(context) => exists|verdict: Result<(), Option<M>>| #[trigger]
                    call_ensures(succeeded, (&context.output_value(),), verdict)
                        && follows_verdict(result, command, context.output_value(), verdict),
                Err(error) => result == Err::<O, Error>(error),
            },
{
    let captured = get_output_as::<O>(command, outcome);
    proof {
        assert(is_capture(captured, command, outcome));
    }
    match captured {
        Ok(context) => {
            let verdict = succeeded(context.output());
            proof {
                assert(call_ensures(succeeded, (&context.output_value(),), verdict));
            }
            context.checked(verdict)
        },
        Err(error) => Err(error),
    }
}

/// What the default check makes of `output`: the output where the command
/// exited with code zero, else an error without a message.
pub open spec fn follows_default<O: OutputLike>(
    result: Result<O, Error>,
    command: Utf8ProgramAndArgs,
    output: O,
) -> bool {
    if output.status_view().success() {
        result == Ok::<O, Error>(output)
    } else {
        result matches Err(error) && is_plain_failure(error, command, output)
    }
}

/// The default check of `context`: success if and only if the command exited
/// with code zero.
pub fn default_checked<O: OutputLike>(context: OutputContext<O>) -> (result: Result<O, Error>)
    ensures
        follows_default(result, context.command_value(), context.output_value()),
{
    if context.status().success() {
        Ok(context.into_output())
    } else {
        Err(context.error())
    }
}

/// Checks a run of `command` that captured output. A command that ended with
/// a non-zero exit code, or without one, is an error; its message holds the
/// command and its output. Output is not converted.
pub fn output_checked(command: Utf8ProgramAndArgs, outcome: Result<RawOutput, std::io::Error>) -> (result:
    Result<RawOutput, Error>)
    ensures
        match outcome {
            Err(inner) => result matches Err(error) && is_exec_failure(error, command, inner),
            Ok(raw) => exists|output: RawOutput| #[trigger]
                follows_default(result, command, output) && output@ == raw@,
        },
{
    match get_output_as::<RawOutput>(command, outcome) {
        Ok(context) => default_checked(context),
        Err(error) => Err(error),
    }
}

/// Checks a run of `command` that captured output, decoding the output as
/// UTF-8. A command that ended with a non-zero exit code, or without one, is an
/// error, and so is output that is not UTF-8.
pub fn output_checked_utf8(
    command: Utf8ProgramAndArgs,
    outcome: Result<RawOutput, std::io::Error>,
) -> (result: Result<Utf8Output, Error>)
    ensures
        match outcome {
            Err(inner) => result matches Err(error) && is_exec_failure(error, command, inner),
            Ok(raw) => match Utf8Output::converted(raw@) {
                Err(reason) => result matches Err(error) && is_conversion_failure(
                    error,
                    command,
                    reason,
                ),
                Ok(decoded) => exists|output: Utf8Output| #[trigger]
                    follows_default(result, command, output) && output@ == decoded,
            },
        },
{
    match get_output_as::<Utf8Output>(command, outcome) {
        Ok(context) => default_checked(context),
        Err(error) => Err(error),
    }
}

/// Checks a run of `command` that captured output, decoding the output as
/// UTF-8. `succeeded` decides whether the command succeeded, as in
/// [`output_checked_with`].
pub fn output_checked_with_utf8<M, F>(
    command: Utf8ProgramAndArgs,
    outcome: Result<RawOutput, std::io::Error>,
    succeeded: F,
) -> (result: Result<Utf8Output, Error>) where
    M: DebugDisplay,
    F: Fn(&Utf8Output) -> Result<(), Option<M>>,

    requires
        forall|context: OutputContext<Utf8Output>|
            is_capture(Ok::<OutputContext<Utf8Output>, Error>(context), command, outcome)
                ==> call_requires(succeeded, (&context.output_value(),)),
    ensures
        exists|captured: Result<OutputContext<Utf8Output>, Error>| #[trigger]
            is_capture(captured, command, outcome) && match captured {
                Ok(context) => exists|verdict: Result<(), Option<M>>| #[trigger]
                    call_ensures(succeeded, (&context.output_value(),), verdict)
                        && follows_verdict(result, command, context.output_value(), verdict),
                Err(error) => result == Err::<Utf8Output, Error>(error),
            },
{
    output_checked_with::<Utf8Output, M, F>(command, outcome, succeeded)
}

/// Checks a run of `command` that captured no output. `succeeded` is called
/// with the context of the run and what it returns is returned. A command that
/// could not be run is an execution failure, converted to the caller's error
/// type.
pub fn status_checked_as<R, E, F>(
    command: Utf8ProgramAndArgs,
    outcome: Result<ExitStatus, std::io::Error>,
    succeeded: F,
) -> (result: Result<R, E>) where E: From<Error>, F: Fn(OutputContext<ExitStatus>) -> Result<R, E>
    requires
        forall|context: OutputContext<ExitStatus>|
            is_status_capture(Ok::<OutputContext<ExitStatus>, Error>(context), command, outcome)
                ==> call_requires(succeeded, (context,)),
    ensures
        exists|captured: Result<OutputContext<ExitStatus>, Error>| #[trigger]
            is_status_capture(captured, command, outcome) && match captured {
                Ok(context) => call_ensures(succeeded, (context,), result),
                Err(error) => passes_on(result, error),
            },
{
    let captured = get_status(command, outcome);
    proof {
        assert(is_status_capture(captured, command, outcome));
    }
    match captured {
        Ok(context) => succeeded(context),
        Err(error) => Err(E::from(error)),
    }
}

/// Checks a run of `command` that captured no output. `succeeded` is called
/// with the exit status and decides whether the command succeeded; where it
/// did not, the message that `succeeded` gives, if any, is attached to the
/// error.
pub fn status_checked_with<M, F>(
    command: Utf8ProgramAndArgs,
    outcome: Result<ExitStatus, std::io::Error>,
    succeeded: F,
) -> (result: Result<ExitStatus, Error>) where
    M: DebugDisplay,
    F: Fn(ExitStatus) -> Result<(), Option<M>>,

    requires
        forall|seen: ExitStatus|
            outcome matches Ok(status) && seen@ == status@ ==> call_requires(succeeded, (seen,)),
    ensures
        match outcome {
            Err(inner) => result matches Err(error) && is_exec_failure(error, command, inner),
            Ok(status) => exists|seen: ExitStatus, verdict: Result<(), Option<M>>| #[trigger]
                call_ensures(succeeded, (seen,), verdict) && seen@ == status@ && follows_verdict(
                    result,
                    command,
                    status,
                    verdict,
                ),
        },
{
    match get_status(command, outcome) {
        Ok(context) => {
            let seen = context.status();
            let verdict = succeeded(seen);
            proof {
                assert(call_ensures(succeeded, (seen,), verdict));
            }
            context.checked(verdict)
        },
        Err(error) => Err(error),
    }
}

/// Checks a run of `command` that captured no output. A command that ended
/// with a non-zero exit code, or without one, is an error; its message holds
/// the command.
pub fn status_checked(command: Utf8ProgramAndArgs, outcome: Result<ExitStatus, std::io::Error>) -> (result:
    Result<ExitStatus, Error>)
    ensures
        match outcome {
            Err(inner) => result matches Err(error) && is_exec_failure(error, command, inner),
            Ok(status) => follows_default(result, command, status),
        },
{
    match get_status(command, outcome) {
        Ok(context) => default_checked(context),
        Err(error) => Err(error),
    }
}

/// A command that passes the default check exited with code zero, and what is
/// returned is its output.
pub proof fn lemma_default_success<O: OutputLike>(
    result: Result<O, Error>,
    command: Utf8ProgramAndArgs,
    output: O,
)
    requires
        follows_default(result, command, output),
    ensures
        output.status_view().success() <==> result is Ok,
        result matches Ok(returned) ==> returned == output && returned.status_view().success(),
{
}

/// A command that fails the default check gives an error whose message holds
/// the line that names it: `Command failed: `, then the command line between
/// backquotes. The line starts after a line feed, and what follows it, if
/// anything, starts with a line feed.
pub proof fn lemma_default_failure_names_command<O: OutputLike>(
    result: Result<O, Error>,
    command: Utf8ProgramAndArgs,
    output: O,
)
    requires
        follows_default(result, command, output),
        !output.status_view().success(),
    ensures
        result matches Err(Error::Output(error)) && exists|before: Seq<char>, after: Seq<char>|
            #![trigger before + "\nCommand failed: `"@ + command@.rendering() + "`"@ + after]
            error@.message() == before + "\nCommand failed: `"@ + command@.rendering() + "`"@
                + after && (after.len() == 0 || after.first() == '\n'),
{
    let error = result->Err_0->Output_0;
    lemma_message_names_command(error@);
}

} // verus!
