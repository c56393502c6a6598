//! The error of a command that ran and failed.

use vstd::prelude::*;
use vstd::string::to_string_from_display_ensures;
use vstd::string::StringExecFns;

use crate::command_display::cow_str;
use crate::command_display::CommandDisplay;
use crate::debug_display::DebugDisplay;
use crate::exit_status::ExitStatus;
use crate::exit_status::ExitStatusView;
use crate::output_like::OutputLike;
use crate::shell::shell_quoted;
use crate::text::all_whitespace;
use crate::text::lemma_whitespace_trims_to_empty;
use crate::text::lines;
use crate::text::string_views;
use crate::text::text_lines;
use crate::text::trim;
use crate::text::trimmed;
use crate::utf8_program_and_args::CommandView;
use crate::utf8_program_and_args::Utf8ProgramAndArgs;

verus! {

/// `lines` with `indent` before each and a line feed between neighbours.
pub open spec fn indented(lines: Seq<Seq<char>>, indent: Seq<char>) -> Seq<char>
    decreases lines.len(),
{
    if lines.len() == 0 {
        Seq::empty()
    } else if lines.len() == 1 {
        indent + lines[0]
    } else {
        indented(lines.drop_last(), indent) + "\n"@ + indent + lines.last()
    }
}

/// The part of a message that shows one output stream: nothing where the
/// stream holds whitespace alone, else a line feed, the heading on a line of
/// its own, and the trimmed text with each line indented by two spaces.
pub open spec fn output_section(heading: Seq<char>, text: Seq<char>) -> Seq<char> {
    let inner = trimmed(text);
    if inner.len() == 0 {
        Seq::empty()
    } else {
        "\n"@ + heading + "\n"@ + indented(text_lines(inner), "  "@)
    }
}

/// The mathematical value of an [`OutputError`].
pub struct OutputErrorView {
    /// The command that ran.
    pub command: CommandView,
    /// The status with which it ended.
    pub status: ExitStatusView,
    /// Its standard output as text.
    pub stdout: Seq<char>,
    /// Its standard error as text.
    pub stderr: Seq<char>,
    /// The message that the caller attached, if any.
    pub user_error: Option<Seq<char>>,
}

impl OutputErrorView {
    /// The first line: the quoted program, then the caller's message on that
    /// line and the status line below it, or the status line alone.
    pub open spec fn failure_line(self) -> Seq<char> {
        "`"@ + shell_quoted(self.command.program) + "` failed: "@ + match self.user_error {
            Some(message) => message + "\n"@ + self.status.description,
            None => self.status.description,
        }
    }

    /// The line that names the command, with the line feed before it.
    pub open spec fn command_line(self) -> Seq<char> {
        "\nCommand failed: `"@ + self.command.rendering() + "`"@
    }

    /// The whole message.
    pub open spec fn message(self) -> Seq<char> {
        self.failure_line() + self.command_line() + output_section("Stdout:"@, self.stdout)
            + output_section("Stderr:"@, self.stderr)
    }

    /// The same error with `message` attached in place of any other.
    pub open spec fn with_message(self, message: Seq<char>) -> OutputErrorView {
        OutputErrorView { user_error: Some(message), ..self }
    }

    /// The same error with no message attached.
    pub open spec fn without_message(self) -> OutputErrorView {
        OutputErrorView { user_error: None, ..self }
    }
}

/// An error from a failed command, typically due to a non-zero exit status.
///
/// This is a command that ran and was judged to have failed, rather than one
/// that could not be started.
#[derive(Debug)]
pub struct OutputError {
    /// The program and arguments that ran.
    command: Utf8ProgramAndArgs,
    /// The program's exit status.
    status: ExitStatus,
    /// The program's standard output.
    stdout: String,
    /// The program's standard error.
    stderr: String,
    /// A user-defined error message.
    user_error: Option<String>,
}

impl View for OutputError {
    type V = OutputErrorView;

    closed spec fn view(&self) -> OutputErrorView {
        OutputErrorView {
            command: self.command@,
            status: self.status@,
            stdout: self.stdout@,
            stderr: self.stderr@,
            user_error: match self.user_error {
                Some(message) => Some(message@),
                None => None,
            },
        }
    }
}

/// Appends `text` to `out`, line by line, with `indent` before each line. No
/// line feed follows the last line.
pub fn write_indented(out: &mut String, text: &str, indent: &str)
    ensures
        final(out)@ == old(out)@ + indented(text_lines(text@), indent@),
{
    let found = lines(text);
    let ghost start = out@;
    let mut i: usize = 0;
    while i < found.len()
        invariant
            i <= found.len(),
            out@ == start + indented(string_views(found@).take(i as int), indent@),
        decreases found.len() - i,
    {
        let ghost before = string_views(found@).take(i as int);
        let ghost after = string_views(found@).take(i + 1);
        if i > 0 {
            out.append("\n");
        }
        out.append(indent);
        out.append(found[i].as_str());
        proof {
            assert(after.drop_last() =~= before);
            assert(after.last() == found@[i as int]@);
            assert(out@ =~= start + indented(after, indent@));
        }
        i += 1;
    }
    proof {
        assert(string_views(found@).take(i as int) =~= string_views(found@));
    }
}

/// Appends the section that shows one output stream to `out`.
fn write_section(out: &mut String, heading: &str, text: &str)
    ensures
        final(out)@ == old(out)@ + output_section(heading@, text@),
{
    let inner = trim(text);
    if !inner.is_empty() {
        let ghost start = out@;
        out.append("\n");
        out.append(heading);
        out.append("\n");
        write_indented(out, inner, "  ");
        proof {
            assert(out@ =~= start + output_section(heading@, text@));
        }
    }
}

impl OutputError {
    /// Construct a new [`OutputError`] from the command and what it gave. No
    /// message is attached.
    pub fn new<O: OutputLike>(command: Utf8ProgramAndArgs, output: O) -> (error: Self)
        ensures
            error@ == (OutputErrorView {
                command: command@,
                status: output.status_view(),
                stdout: output.stdout_text(),
                stderr: output.stderr_text(),
                user_error: None,
            }),
    {
        let status = output.status();
        let stdout = cow_str(&output.stdout()).to_owned();
        let stderr = cow_str(&output.stderr()).to_owned();
        OutputError { command, status, stdout, stderr, user_error: None }
    }

    /// Attach `message`, already rendered as text, to this error.
    pub fn with_message_text(self, message: String) -> (error: Self)
        ensures
            error@ == self@.with_message(message@),
    {
        OutputError {
            command: self.command,
            status: self.status,
            stdout: self.stdout,
            stderr: self.stderr,
            user_error: Some(message),
        }
    }

    /// Attach a user-defined message to this error. The message is kept as the
    /// text that it displays.
    pub fn with_message<M: DebugDisplay>(self, message: M) -> (error: Self)
        ensures
            exists|text: String| #[trigger]
                to_string_from_display_ensures::<M>(&message, text) && error@
                    == self@.with_message(text@),
    {
        let text = message.to_string();
        proof {
            assert(to_string_from_display_ensures::<M>(&message, text));
        }
        self.with_message_text(text)
    }

    /// Remove a user-defined message from this error, if any.
    pub fn without_message(self) -> (error: Self)
        ensures
            error@ == self@.without_message(),
    {
        OutputError {
            command: self.command,
            status: self.status,
            stdout: self.stdout,
            stderr: self.stderr,
            user_error: None,
        }
    }

    /// The command that ran.
    pub fn command(&self) -> (command: &Utf8ProgramAndArgs)
        ensures
            command@ == self@.command,
    {
        &self.command
    }

    /// The status with which the command ended.
    pub fn status(&self) -> (status: &ExitStatus)
        ensures
            status@ == self@.status,
    {
        &self.status
    }

    /// The command's standard output as text.
    pub fn stdout(&self) -> (text: &str)
        ensures
            text@ == self@.stdout,
    {
        self.stdout.as_str()
    }

    /// The command's standard error as text.
    pub fn stderr(&self) -> (text: &str)
        ensures
            text@ == self@.stderr,
    {
        self.stderr.as_str()
    }

    /// The message that was attached, if any.
    pub fn message(&self) -> (message: Option<&str>)
        ensures
            match message {
                Some(text) => self@.user_error == Some(text@),
                None => self@.user_error is None,
            },
    {
        match &self.user_error {
            Some(text) => Some(text.as_str()),
            None => None,
        }
    }

    /// The message of the error: what failed and how, the command line, and
    /// the output that the command gave.
    pub fn to_string(&self) -> (message: String)
        ensures
            message@ == self@.message(),
    {
        let program = self.command.program_quoted();
        let status = self.status.to_string();
        let command = self.command.to_string();
        let mut message = "`".to_owned();
        message.append(cow_str(&program));
        message.append("` failed: ");
        match &self.user_error {
            Some(user_error) => {
                message.append(user_error.as_str());
                message.append("\n");
                message.append(status.as_str());
            },
            None => {
                message.append(status.as_str());
            },
        }
        proof {
            assert(message@ =~= self@.failure_line());
        }
        message.append("\nCommand failed: `");
        message.append(command.as_str());
        message.append("`");
        proof {
            assert(message@ =~= self@.failure_line() + self@.command_line());
        }
        write_section(&mut message, "Stdout:", self.stdout.as_str());
        write_section(&mut message, "Stderr:", self.stderr.as_str());
        message
    }
}

/// The message holds the line that names the command: `Command failed: `, then
/// the command line between backquotes. The line starts after a line feed, and
/// what follows it, if anything, starts with a line feed.
pub proof fn lemma_message_names_command(error: OutputErrorView)
    ensures
        exists|before: Seq<char>, after: Seq<char>|
            #![trigger before + "\nCommand failed: `"@ + error.command.rendering() + "`"@ + after]
            error.message() == before + "\nCommand failed: `"@ + error.command.rendering() + "`"@
                + after && (after.len() == 0 || after.first() == '\n'),
{
    let before = error.failure_line();
    let after = output_section("Stdout:"@, error.stdout) + output_section(
        "Stderr:"@,
        error.stderr,
    );
    reveal_strlit("\n");
    assert(error.message() =~= before + "\nCommand failed: `"@ + error.command.rendering() + "`"@
        + after);
    assert(after.len() == 0 || after.first() == '\n');
}

/// Output that is whitespace alone is left out: the message ends with the line
/// that names the command.
pub proof fn lemma_blank_output_is_omitted(error: OutputErrorView)
    requires
        all_whitespace(error.stdout),
        all_whitespace(error.stderr),
    ensures
        error.message() == error.failure_line() + error.command_line(),
{
    lemma_whitespace_trims_to_empty(error.stdout);
    lemma_whitespace_trims_to_empty(error.stderr);
    assert(error.message() =~= error.failure_line() + error.command_line());
}

/// Rendering is repeatable: two messages of one error are the same text.
pub proof fn lemma_message_is_repeatable(error: OutputError, first: String, second: String)
    requires
        first@ == error@.message(),
        second@ == error@.message(),
    ensures
        first@ == second@,
{
}

} // verus!
