//! The output of a finished command as bytes.

use std::borrow::Cow;
use vstd::prelude::*;

use crate::exit_status::ExitStatus;
use crate::exit_status::ExitStatusView;
use crate::output_like::OutputLike;

verus! {

/// The text that `String::from_utf8_lossy` makes of `bytes`: the decoded
/// characters, with U+FFFD wherever the bytes are not UTF-8.
pub uninterp spec fn utf8_lossy(bytes: Seq<u8>) -> Seq<char>;

/// Calls `String::from_utf8_lossy`, which decodes the bytes and puts U+FFFD in
/// place of every sequence that is not UTF-8. The text depends on the bytes
/// alone.
#[verifier::external_body]
pub(crate) fn decode_lossy(bytes: &Vec<u8>) -> (text: Cow<'_, str>)
    ensures
        text@ == utf8_lossy(bytes@),
{
    String::from_utf8_lossy(bytes)
}

/// The exit status of a finished command and what it wrote, as bytes.
#[derive(Debug, PartialEq, Eq)]
pub struct RawOutput {
    /// The status with which the command ended.
    pub status: ExitStatus,
    /// What the command wrote to its standard output.
    pub stdout: Vec<u8>,
    /// What the command wrote to its standard error.
    pub stderr: Vec<u8>,
}

/// The mathematical value of a [`RawOutput`].
pub struct RawOutputView {
    pub status: ExitStatusView,
    pub stdout: Seq<u8>,
    pub stderr: Seq<u8>,
}

impl View for RawOutput {
    type V = RawOutputView;

    open spec fn view(&self) -> RawOutputView {
        RawOutputView { status: self.status@, stdout: self.stdout@, stderr: self.stderr@ }
    }
}

impl Clone for RawOutput {
    fn clone(&self) -> (copy: Self)
        ensures
            copy@ == self@,
    {
        let stdout = self.stdout.clone();
        let stderr = self.stderr.clone();
        proof {
            assert(stdout@ =~= self.stdout@);
            assert(stderr@ =~= self.stderr@);
        }
        RawOutput { status: self.status.clone(), stdout, stderr }
    }
}

/// An output type that can be made from the raw output of a finished command,
/// or not: a conversion that fails says why.
pub trait FromRawOutput: Sized + View {
    /// What the conversion makes of `raw`: the value, or the reason why there
    /// is none.
    spec fn converted(raw: RawOutputView) -> Result<Self::V, Seq<char>>;

    /// Converts the raw output.
    fn from_raw_output(raw: RawOutput) -> (result: Result<Self, String>)
        ensures
            match result {
                Ok(output) => Self::converted(raw@) == Ok::<Self::V, Seq<char>>(output@),
                Err(reason) => Self::converted(raw@) == Err::<Self::V, Seq<char>>(reason@),
            },
    ;
}

/// Raw output is kept as it is.
impl FromRawOutput for RawOutput {
    open spec fn converted(raw: RawOutputView) -> Result<RawOutputView, Seq<char>> {
        Ok(raw)
    }

    fn from_raw_output(raw: RawOutput) -> (result: Result<Self, String>) {
        Ok(raw)
    }
}

impl OutputLike for RawOutput {
    open spec fn status_view(&self) -> ExitStatusView {
        self.status@
    }

    open spec fn stdout_text(&self) -> Seq<char> {
        utf8_lossy(self.stdout@)
    }

    open spec fn stderr_text(&self) -> Seq<char> {
        utf8_lossy(self.stderr@)
    }

    fn status(&self) -> (status: ExitStatus) {
        self.status.clone()
    }

    fn stdout(&self) -> (text: Cow<'_, str>) {
        decode_lossy(&self.stdout)
    }

    fn stderr(&self) -> (text: Cow<'_, str>) {
        decode_lossy(&self.stderr)
    }
}

} // verus!
