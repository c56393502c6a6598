//! What can be read of a finished command: its status and its output as text.

use std::borrow::Cow;
use vstd::prelude::*;

use crate::exit_status::ExitStatus;
use crate::exit_status::ExitStatusView;

verus! {

/// A command output type.
///
/// Reading never fails: output that is not UTF-8 is decoded as far as it
/// goes, with U+FFFD in place of what is not.
pub trait OutputLike {
    /// The status that [`OutputLike::status`] gives.
    spec fn status_view(&self) -> ExitStatusView;

    /// The text that [`OutputLike::stdout`] gives.
    spec fn stdout_text(&self) -> Seq<char>;

    /// The text that [`OutputLike::stderr`] gives.
    spec fn stderr_text(&self) -> Seq<char>;

    /// The command's exit status.
    fn status(&self) -> (status: ExitStatus)
        ensures
            status@ == self.status_view(),
    ;

    /// The command's stdout, decoded to UTF-8 on a best-effort basis.
    fn stdout(&self) -> (text: Cow<'_, str>)
        ensures
            text@ == self.stdout_text(),
    ;

    /// The command's stderr, decoded to UTF-8 on a best-effort basis.
    fn stderr(&self) -> (text: Cow<'_, str>)
        ensures
            text@ == self.stderr_text(),
    ;
}

/// A trivial implementation with empty output.
impl OutputLike for ExitStatus {
    open spec fn status_view(&self) -> ExitStatusView {
        self@
    }

    open spec fn stdout_text(&self) -> Seq<char> {
        Seq::empty()
    }

    open spec fn stderr_text(&self) -> Seq<char> {
        Seq::empty()
    }

    fn status(&self) -> (status: ExitStatus) {
        self.clone()
    }

    fn stdout(&self) -> (text: Cow<'_, str>) {
        proof {
            reveal_strlit("");
        }
        assert(""@ =~= Seq::<char>::empty());
        Cow::Borrowed("")
    }

    fn stderr(&self) -> (text: Cow<'_, str>) {
        proof {
            reveal_strlit("");
        }
        assert(""@ =~= Seq::<char>::empty());
        Cow::Borrowed("")
    }
}

} // verus!
