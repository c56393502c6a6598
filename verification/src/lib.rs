//! Checked command execution: decide whether a finished command succeeded and,
//! when it did not, explain the failure with the command line, its exit status
//! and its captured output.
//!
//! Running a process is not done here. The caller runs it and hands over the
//! command, as a [`Utf8ProgramAndArgs`], and what running it gave. The checks
//! in [`command_ext`] and [`child_ext`] judge the result, by the exit code or
//! by a predicate of the caller, and return either the value asked for or an
//! [`Error`] whose message names the command, its status and its output.

pub mod child_context;
pub mod child_ext;
pub mod command_display;
pub mod command_ext;
pub mod debug_display;
pub mod error;
pub mod exec_error;
pub mod exit_status;
pub mod output_context;
pub mod output_conversion_error;
pub mod output_error;
pub mod output_like;
pub mod raw_output;
pub mod shell;
pub mod text;
pub mod try_wait_context;
pub mod utf8_output;
pub mod utf8_program_and_args;
pub mod wait_error;

pub use child_context::ChildContext;
pub use command_display::CommandDisplay;
pub use debug_display::DebugDisplay;
pub use error::Error;
pub use exec_error::ExecError;
pub use exit_status::ExitStatus;
pub use output_context::OutputContext;
pub use output_conversion_error::OutputConversionError;
pub use output_error::write_indented;
pub use output_error::OutputError;
pub use output_like::OutputLike;
pub use raw_output::FromRawOutput;
pub use raw_output::RawOutput;
pub use try_wait_context::TryWaitContext;
pub use utf8_output::Utf8Output;
pub use utf8_program_and_args::Utf8ProgramAndArgs;
pub use wait_error::WaitError;
