//! A command's program, arguments, working directory and environment as text.

use std::borrow::Cow;
use vstd::prelude::*;
use vstd::string::StringExecFns;

use crate::command_display::CommandDisplay;
use crate::shell::join;
use crate::shell::quote;
use crate::shell::shell_joined;
use crate::shell::shell_quoted;
use crate::text::string_views;

verus! {

/// A program name and arguments stored as UTF-8 [`String`]s, with the working
/// directory and the environment changes that the command was given.
///
/// Shown, the program and each argument are shell-quoted, so that the line can
/// in general be pasted into a shell.
#[derive(Debug, PartialEq, Eq)]
pub struct Utf8ProgramAndArgs {
    current_dir: Option<String>,
    envs: Vec<(String, Option<String>)>,
    program: String,
    args: Vec<String>,
}

/// The mathematical value of a [`Utf8ProgramAndArgs`].
pub struct CommandView {
    /// The directory that the command changes to, if any.
    pub current_dir: Option<Seq<char>>,
    /// The environment changes in order: a name, and its value or `None` where
    /// the variable is removed.
    pub envs: Seq<(Seq<char>, Option<Seq<char>>)>,
    /// The program's name.
    pub program: Seq<char>,
    /// The arguments, in order.
    pub args: Seq<Seq<char>>,
}

/// The view of an optional string.
pub open spec fn optional_text(text: Option<String>) -> Option<Seq<char>> {
    match text {
        Some(text) => Some(text@),
        None => None,
    }
}

/// The views of environment changes, in order.
pub open spec fn env_views(envs: Seq<(String, Option<String>)>) -> Seq<
    (Seq<char>, Option<Seq<char>>),
> {
    envs.map_values(|env: (String, Option<String>)| (env.0@, optional_text(env.1)))
}

/// `cd <dir> && ` for a working directory, nothing without one.
pub open spec fn directory_prefix(current_dir: Option<Seq<char>>) -> Seq<char> {
    match current_dir {
        Some(dir) => "cd "@ + shell_quoted(dir) + " && "@,
        None => Seq::empty(),
    }
}

/// `KEY=value ` for a variable that is set, with the value shell-quoted, and
/// `KEY= ` for one that is removed.
pub open spec fn env_assignment(env: (Seq<char>, Option<Seq<char>>)) -> Seq<char> {
    env.0 + "="@ + match env.1 {
        Some(value) => shell_quoted(value),
        None => Seq::empty(),
    } + " "@
}

/// The assignments of `envs`, in order.
pub open spec fn environment_prefix(envs: Seq<(Seq<char>, Option<Seq<char>>)>) -> Seq<char>
    decreases envs.len(),
{
    if envs.len() == 0 {
        Seq::empty()
    } else {
        environment_prefix(envs.drop_last()) + env_assignment(envs.last())
    }
}

/// A space and the quoted arguments, or nothing where there are none.
pub open spec fn arguments_suffix(args: Seq<Seq<char>>) -> Seq<char> {
    if args.len() == 0 {
        Seq::empty()
    } else {
        " "@ + shell_joined(args)
    }
}

impl CommandView {
    /// The command line: the change of directory, the environment changes, the
    /// quoted program and the quoted arguments.
    pub open spec fn rendering(self) -> Seq<char> {
        directory_prefix(self.current_dir) + environment_prefix(self.envs) + shell_quoted(
            self.program,
        ) + arguments_suffix(self.args)
    }
}

impl View for Utf8ProgramAndArgs {
    type V = CommandView;

    closed spec fn view(&self) -> CommandView {
        CommandView {
            current_dir: optional_text(self.current_dir),
            envs: env_views(self.envs@),
            program: self.program@,
            args: string_views(self.args@),
        }
    }
}

impl Utf8ProgramAndArgs {
    /// A descriptor of the command that runs `program` with `args`, after
    /// changing to `current_dir` if there is one and applying `envs` in order.
    pub fn new(
        program: String,
        args: Vec<String>,
        current_dir: Option<String>,
        envs: Vec<(String, Option<String>)>,
    ) -> (command: Self)
        ensures
            command@ == (CommandView {
                current_dir: optional_text(current_dir),
                envs: env_views(envs@),
                program: program@,
                args: string_views(args@),
            }),
    {
        Utf8ProgramAndArgs { current_dir, envs, program, args }
    }

    /// The environment changes written as assignments.
    fn environment(&self) -> (prefix: String)
        ensures
            prefix@ == environment_prefix(self@.envs),
    {
        let mut prefix = String::new();
        let mut i: usize = 0;
        while i < self.envs.len()
            invariant
                i <= self.envs.len(),
                prefix@ == environment_prefix(env_views(self.envs@).take(i as int)),
            decreases self.envs.len() - i,
        {
            let ghost before = env_views(self.envs@).take(i as int);
            let ghost after = env_views(self.envs@).take(i + 1);
            let env = &self.envs[i];
            prefix.append(env.0.as_str());
            prefix.append("=");
            match &env.1 {
                Some(value) => {
                    let quoted = quote(value.as_str());
                    prefix.append(quoted.as_str());
                },
                None => {},
            }
            prefix.append(" ");
            proof {
                assert(after.drop_last() =~= before);
                assert(after.last() == (env.0@, optional_text(env.1)));
                assert(prefix@ =~= environment_prefix(before) + env_assignment(after.last()));
            }
            i += 1;
        }
        proof {
            assert(env_views(self.envs@).take(i as int) =~= env_views(self.envs@));
        }
        prefix
    }
}

impl Clone for Utf8ProgramAndArgs {
    fn clone(&self) -> (copy: Self)
        ensures
            copy@ == self@,
    {
        let mut envs: Vec<(String, Option<String>)> = Vec::new();
        let mut i: usize = 0;
        while i < self.envs.len()
            invariant
                i <= self.envs.len(),
                envs@.len() == i,
                env_views(envs@) == env_views(self.envs@).take(i as int),
            decreases self.envs.len() - i,
        {
            let env = &self.envs[i];
            let value = match &env.1 {
                Some(value) => Some(value.clone()),
                None => None,
            };
            let name = env.0.clone();
            let ghost copied = env_views(envs@);
            envs.push((name, value));
            proof {
                let target = env_views(self.envs@).take(i + 1);
                assert(env_views(envs@).len() == target.len());
                assert forall|j: int| 0 <= j < target.len() implies env_views(envs@)[j]
                    == target[j] by {
                    if j < i {
                        assert(env_views(envs@)[j] == copied[j]);
                        assert(copied[j] == env_views(self.envs@).take(i as int)[j]);
                    } else {
                        assert(optional_text(value) == optional_text(env.1));
                    }
                }
                assert(env_views(envs@) =~= target);
            }
            i += 1;
        }
        let current_dir = match &self.current_dir {
            Some(dir) => Some(dir.clone()),
            None => None,
        };
        let args = self.args.clone();
        proof {
            assert(env_views(self.envs@).take(i as int) =~= env_views(self.envs@));
            assert(string_views(args@) =~= string_views(self.args@));
        }
        Utf8ProgramAndArgs { current_dir, envs, program: self.program.clone(), args }
    }
}

impl CommandDisplay for Utf8ProgramAndArgs {
    open spec fn program_text(&self) -> Seq<char> {
        self@.program
    }

    open spec fn args_text(&self) -> Seq<Seq<char>> {
        self@.args
    }

    open spec fn rendering(&self) -> Seq<char> {
        self@.rendering()
    }

    fn program(&self) -> (name: Cow<'_, str>) {
        Cow::Borrowed(self.program.as_str())
    }

    fn program_quoted(&self) -> (name: Cow<'_, str>) {
        Cow::Owned(quote(self.program.as_str()))
    }

    fn args(&self) -> (args: Vec<String>) {
        let args = self.args.clone();
        proof {
            assert(string_views(args@) =~= string_views(self.args@));
        }
        args
    }

    fn to_string(&self) -> (line: String) {
        let mut line = String::new();
        match &self.current_dir {
            Some(dir) => {
                let quoted = quote(dir.as_str());
                line.append("cd ");
                line.append(quoted.as_str());
                line.append(" && ");
            },
            None => {},
        }
        let environment = self.environment();
        line.append(environment.as_str());
        let program = quote(self.program.as_str());
        line.append(program.as_str());
        if self.args.len() > 0 {
            let joined = join(&self.args);
            line.append(" ");
            line.append(joined.as_str());
        }
        proof {
            assert(line@ =~= self@.rendering());
        }
        line
    }
}

} // verus!
