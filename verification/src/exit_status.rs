//! How a finished process ended.

use vstd::prelude::*;

verus! {

/// The status with which a process ended: its exit code if it exited, the
/// signal that ended it if one did, and the status line that the platform
/// prints for it (such as `exit status: 1` or `signal: 9 (SIGKILL)`).
#[derive(Debug, PartialEq, Eq)]
pub struct ExitStatus {
    code: Option<i32>,
    signal: Option<i32>,
    description: String,
}

/// The mathematical value of an [`ExitStatus`].
pub struct ExitStatusView {
    pub code: Option<i32>,
    pub signal: Option<i32>,
    pub description: Seq<char>,
}

impl ExitStatusView {
    /// A process succeeded when it exited with code zero.
    pub open spec fn success(self) -> bool {
        self.code == Some(0i32)
    }
}

impl View for ExitStatus {
    type V = ExitStatusView;

    closed spec fn view(&self) -> ExitStatusView {
        ExitStatusView {
            code: self.code,
            signal: self.signal,
            description: self.description@,
        }
    }
}

impl Clone for ExitStatus {
    fn clone(&self) -> (copy: Self)
        ensures
            copy@ == self@,
    {
        ExitStatus { code: self.code, signal: self.signal, description: self.description.clone() }
    }
}

impl Default for ExitStatus {
    /// The status of a process that exited with code zero.
    fn default() -> (status: Self)
        ensures
            status@.code == Some(0i32),
            status@.signal == None::<i32>,
            status@.description == "exit status: 0"@,
    {
        ExitStatus { code: Some(0), signal: None, description: "exit status: 0".to_owned() }
    }
}

impl ExitStatus {
    /// A status from its parts.
    pub fn new(code: Option<i32>, signal: Option<i32>, description: String) -> (status: Self)
        ensures
            status@ == (ExitStatusView { code, signal, description: description@ }),
    {
        ExitStatus { code, signal, description }
    }

    /// Whether the process exited with code zero.
    pub fn success(&self) -> (ok: bool)
        ensures
            ok == self@.success(),
    {
        match self.code {
            Some(code) => code == 0,
            None => false,
        }
    }

    /// The exit code, if the process exited.
    pub fn code(&self) -> (code: Option<i32>)
        ensures
            code == self@.code,
    {
        self.code
    }

    /// The signal that ended the process, if one did.
    pub fn signal(&self) -> (signal: Option<i32>)
        ensures
            signal == self@.signal,
    {
        self.signal
    }

    /// The status line.
    pub fn to_string(&self) -> (line: String)
        ensures
            line@ == self@.description,
    {
        self.description.clone()
    }
}

} // verus!
