//! The interface of a command that can be shown after it has run.

use std::borrow::Cow;
use vstd::prelude::*;

use crate::shell::quote;
use crate::shell::shell_quoted;
use crate::text::string_views;

verus! {

/// A command that can be displayed: its program, its arguments, and the
/// command line that stands for it in messages.
///
/// Program and arguments are text; where the command held bytes that are not
/// UTF-8, the text holds U+FFFD in their place.
pub trait CommandDisplay {
    /// The program's name.
    spec fn program_text(&self) -> Seq<char>;

    /// The arguments, in order.
    spec fn args_text(&self) -> Seq<Seq<char>>;

    /// The whole command line, as [`CommandDisplay::to_string`] gives it.
    spec fn rendering(&self) -> Seq<char>;

    /// The command's program name.
    fn program(&self) -> (name: Cow<'_, str>)
        ensures
            name@ == self.program_text(),
    ;

    /// The command's program name, shell-quoted.
    fn program_quoted(&self) -> (name: Cow<'_, str>)
        ensures
            name@ == shell_quoted(self.program_text()),
    {
        let name = self.program();
        Cow::Owned(quote(cow_str(&name)))
    }

    /// The command's arguments.
    fn args(&self) -> (args: Vec<String>)
        ensures
            string_views(args@) == self.args_text(),
    ;

    /// The command line, as it is shown in messages.
    fn to_string(&self) -> (line: String)
        ensures
            line@ == self.rendering(),
    ;
}

/// The text that `text` holds, borrowed or owned.
pub(crate) fn cow_str<'a>(text: &'a Cow<'_, str>) -> (inner: &'a str)
    ensures
        inner@ == text@,
{
    match text {
        Cow::Borrowed(borrowed) => borrowed,
        Cow::Owned(owned) => owned.as_str(),
    }
}

} // verus!
