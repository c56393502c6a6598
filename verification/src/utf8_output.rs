//! The output of a finished command as UTF-8 text.

use std::borrow::Cow;
use std::string::FromUtf8Error;
use vstd::prelude::*;
use vstd::utf8::decode_utf8;
use vstd::utf8::valid_utf8;

use crate::exit_status::ExitStatus;
use crate::exit_status::ExitStatusView;
use crate::output_like::OutputLike;
use crate::raw_output::FromRawOutput;
use crate::raw_output::RawOutput;
use crate::raw_output::RawOutputView;

verus! {

#[verifier::external_type_specification]
#[verifier::external_body]
pub struct ExFromUtf8Error(FromUtf8Error);

/// The bytes that a failed `String::from_utf8` hands back in its error.
pub uninterp spec fn rejected_bytes(error: FromUtf8Error) -> Seq<u8>;

/// The message of `utf8_command::StdoutError` for standard output `bytes` that
/// are not UTF-8: where decoding stopped, and the output around that place.
pub uninterp spec fn stdout_failure(bytes: Seq<u8>) -> Seq<char>;

/// The message of `utf8_command::StderrError` for standard error `bytes` that
/// are not UTF-8: where decoding stopped, and the output around that place.
pub uninterp spec fn stderr_failure(bytes: Seq<u8>) -> Seq<char>;

/// Calls `String::from_utf8`, which succeeds exactly on bytes that are UTF-8,
/// with the text they encode, and otherwise returns an error that holds the
/// bytes.
#[verifier::external_body]
pub(crate) fn decode(bytes: Vec<u8>) -> (result: Result<String, FromUtf8Error>)
    ensures
        match result {
            Ok(text) => valid_utf8(bytes@) && text@ == decode_utf8(bytes@),
            Err(error) => !valid_utf8(bytes@) && rejected_bytes(error) == bytes@,
        },
{
    String::from_utf8(bytes)
}

/// Wraps the error in `utf8_command::StdoutError` and renders it. The message
/// depends on the rejected bytes alone.
#[verifier::external_body]
pub(crate) fn stdout_error_message(error: FromUtf8Error) -> (message: String)
    ensures
        message@ == stdout_failure(rejected_bytes(error)),
{
    utf8_command::StdoutError::from(error).to_string()
}

/// Wraps the error in `utf8_command::StderrError` and renders it. The message
/// depends on the rejected bytes alone.
#[verifier::external_body]
pub(crate) fn stderr_error_message(error: FromUtf8Error) -> (message: String)
    ensures
        message@ == stderr_failure(rejected_bytes(error)),
{
    utf8_command::StderrError::from(error).to_string()
}

/// The exit status of a finished command and what it wrote, decoded as UTF-8.
#[derive(Debug, PartialEq, Eq)]
pub struct Utf8Output {
    /// The status with which the command ended.
    pub status: ExitStatus,
    /// What the command wrote to its standard output.
    pub stdout: String,
    /// What the command wrote to its standard error.
    pub stderr: String,
}

/// The mathematical value of a [`Utf8Output`].
pub struct Utf8OutputView {
    pub status: ExitStatusView,
    pub stdout: Seq<char>,
    pub stderr: Seq<char>,
}

impl View for Utf8Output {
    type V = Utf8OutputView;

    open spec fn view(&self) -> Utf8OutputView {
        Utf8OutputView { status: self.status@, stdout: self.stdout@, stderr: self.stderr@ }
    }
}

impl Clone for Utf8Output {
    fn clone(&self) -> (copy: Self)
        ensures
            copy@ == self@,
    {
        Utf8Output {
            status: self.status.clone(),
            stdout: self.stdout.clone(),
            stderr: self.stderr.clone(),
        }
    }
}

/// Decoding is strict: standard output is decoded first, then standard error,
/// and the first stream that is not UTF-8 gives the reason.
impl FromRawOutput for Utf8Output {
    open spec fn converted(raw: RawOutputView) -> Result<Utf8OutputView, Seq<char>> {
        if !valid_utf8(raw.stdout) {
            Err(stdout_failure(raw.stdout))
        } else if !valid_utf8(raw.stderr) {
            Err(stderr_failure(raw.stderr))
        } else {
            Ok(
                Utf8OutputView {
                    status: raw.status,
                    stdout: decode_utf8(raw.stdout),
                    stderr: decode_utf8(raw.stderr),
                },
            )
        }
    }

    fn from_raw_output(raw: RawOutput) -> (result: Result<Self, String>) {
        let RawOutput { status, stdout, stderr } = raw;
        let stdout = match decode(stdout) {
            Ok(text) => text,
            Err(error) => {
                return Err(stdout_error_message(error));
            },
        };
        let stderr = match decode(stderr) {
            Ok(text) => text,
            Err(error) => {
                return Err(stderr_error_message(error));
            },
        };
        Ok(Utf8Output { status, stdout, stderr })
    }
}

impl OutputLike for Utf8Output {
    open spec fn status_view(&self) -> ExitStatusView {
        self.status@
    }

    open spec fn stdout_text(&self) -> Seq<char> {
        self.stdout@
    }

    open spec fn stderr_text(&self) -> Seq<char> {
        self.stderr@
    }

    fn status(&self) -> (status: ExitStatus) {
        self.status.clone()
    }

    fn stdout(&self) -> (text: Cow<'_, str>) {
        Cow::Borrowed(self.stdout.as_str())
    }

    fn stderr(&self) -> (text: Cow<'_, str>) {
        Cow::Borrowed(self.stderr.as_str())
    }
}

} // verus!
