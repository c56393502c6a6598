//! A started process together with the command that started it.

use vstd::prelude::*;

use crate::utf8_program_and_args::Utf8ProgramAndArgs;

verus! {

/// A child process combined with context about the command that produced it.
///
/// The command is kept so that every later check of the child can name it.
#[derive(Debug)]
pub struct ChildContext<C> {
    child: C,
    command: Utf8ProgramAndArgs,
}

impl<C> ChildContext<C> {
    /// The child in this context.
    pub closed spec fn child_value(self) -> C {
        self.child
    }

    /// The command in this context.
    pub closed spec fn command_value(self) -> Utf8ProgramAndArgs {
        self.command
    }

    /// Construct a new [`ChildContext`].
    pub fn new(child: C, command: Utf8ProgramAndArgs) -> (context: Self)
        ensures
            context.child_value() == child,
            context.command_value() == command,
    {
        ChildContext { child, command }
    }

    /// Get the child process.
    pub fn into_child(self) -> (child: C)
        ensures
            child == self.child_value(),
    {
        self.child
    }

    /// Get a reference to the child process.
    pub fn child(&self) -> (child: &C)
        ensures
            *child == self.child_value(),
    {
        &self.child
    }

    /// Get a mutable reference to the child process.
    pub fn child_mut(&mut self) -> (child: &mut C)
        ensures
            *child == old(self).child_value(),
            final(self).child_value() == *final(child),
            final(self).command_value() == old(self).command_value(),
    {
        &mut self.child
    }

    /// Get a reference to the command which produced this child process.
    pub fn command(&self) -> (command: &Utf8ProgramAndArgs)
        ensures
            *command == self.command_value(),
    {
        &self.command
    }
}

} // verus!
