//! The error of a checked command, of whatever kind.

use vstd::prelude::*;
use vstd::std_specs::convert::FromSpecImpl;
use vstd::string::to_string_from_display_ensures;

use crate::exec_error::exec_failure_help;
use crate::exec_error::exec_failure_message;
use crate::exec_error::ExecError;
use crate::output_conversion_error::OutputConversionError;
use crate::output_error::OutputError;
use crate::wait_error::wait_failure_message;
use crate::wait_error::WaitError;

verus! {

/// An error produced by a command failure.
#[derive(Debug)]
#[non_exhaustive]
pub enum Error {
    /// An execution failure, when a command fails to start or cannot be waited
    /// for to its end.
    Exec(ExecError),
    /// A failure to poll a command that was started.
    Wait(WaitError),
    /// An output failure, when a command fails by returning a non-zero exit
    /// code, or when the caller's own check rejects what it gave. Checks that
    /// capture no output fail with this kind too.
    Output(OutputError),
    /// An output conversion error, when the output of a command could not be
    /// converted to the type that was asked for.
    Conversion(OutputConversionError),
}

impl Error {
    /// The message of the error, which is that of its kind.
    pub fn to_string(&self) -> (message: String)
        ensures
            match *self {
                Error::Exec(error) => exists|reason: String| #[trigger]
                    to_string_from_display_ensures::<std::io::Error>(&error.inner(), reason)
                        && message@ == exec_failure_message(error.command_view(), reason@),
                Error::Wait(error) => exists|reason: String| #[trigger]
                    to_string_from_display_ensures::<std::io::Error>(&error.inner(), reason)
                        && message@ == wait_failure_message(error.command_view(), reason@),
                Error::Output(error) => message@ == error@.message(),
                Error::Conversion(error) => message@ == error@.message(),
            },
    {
        match self {
            Error::Exec(error) => error.to_string(),
            Error::Wait(error) => error.to_string(),
            Error::Output(error) => error.to_string(),
            Error::Conversion(error) => error.to_string(),
        }
    }

    /// A hint for the reader of the message: only a command that could not be
    /// run has one.
    pub fn help(&self) -> (hint: Option<String>)
        ensures
            match *self {
                Error::Exec(error) => hint matches Some(hint) && hint@ == exec_failure_help(
                    error.command_view(),
                ),
                _ => hint is None,
            },
    {
        match self {
            Error::Exec(error) => error.help(),
            _ => None,
        }
    }
}

impl From<ExecError> for Error {
    fn from(error: ExecError) -> (wrapped: Self) {
        Error::Exec(error)
    }
}

impl FromSpecImpl<ExecError> for Error {
    open spec fn obeys_from_spec() -> bool {
        true
    }

    open spec fn from_spec(error: ExecError) -> Self {
        Error::Exec(error)
    }
}

impl From<WaitError> for Error {
    fn from(error: WaitError) -> (wrapped: Self) {
        Error::Wait(error)
    }
}

impl FromSpecImpl<WaitError> for Error {
    open spec fn obeys_from_spec() -> bool {
        true
    }

    open spec fn from_spec(error: WaitError) -> Self {
        Error::Wait(error)
    }
}

impl From<OutputError> for Error {
    fn from(error: OutputError) -> (wrapped: Self) {
        Error::Output(error)
    }
}

impl FromSpecImpl<OutputError> for Error {
    open spec fn obeys_from_spec() -> bool {
        true
    }

    open spec fn from_spec(error: OutputError) -> Self {
        Error::Output(error)
    }
}

impl From<OutputConversionError> for Error {
    fn from(error: OutputConversionError) -> (wrapped: Self) {
        Error::Conversion(error)
    }
}

impl FromSpecImpl<OutputConversionError> for Error {
    open spec fn obeys_from_spec() -> bool {
        true
    }

    open spec fn from_spec(error: OutputConversionError) -> Self {
        Error::Conversion(error)
    }
}

} // verus!
