//! The commands that the tool accepts, as plain values.
use vstd::prelude::*;

verus! {

/// A parsed command line.
#[derive(Debug, Clone, PartialEq, Eq)]
pub struct Cli {
    pub command: Command,
}

/// One command of the tool.
#[derive(Debug, Clone, PartialEq, Eq)]
pub enum Command {
    /// Adds a task to the pending list.
    Todo { item: String },
    /// Completes a pending task, by index, or by asking when none is given.
    Done { item: Option<usize> },
    /// Adds a note.
    Note { item: String },
    /// Shows one list, or all of them.
    Show { subcommand: Option<TodoElements> },
    /// Clears one list, or all of them, each after confirmation.
    Clear { subcommand: Option<TodoElements> },
}

/// Which list a command targets.
#[derive(Debug, Clone, Copy, PartialEq, Eq, Structural)]
pub enum TodoElements {
    Todo,
    Done,
    Note,
    All,
}

impl Default for TodoElements {
    fn default() -> (r: Self)
        ensures
            r == TodoElements::All,
    {
        TodoElements::All
    }
}

impl TodoElements {
    /// The list that an optional selector names; none given means all of them.
    pub fn selected(subcommand: Option<TodoElements>) -> (r: TodoElements)
        ensures
            r == match subcommand {
                Some(s) => s,
                None => TodoElements::All,
            },
    {
        match subcommand {
            Some(s) => s,
            None => TodoElements::default(),
        }
    }
}

impl Command {
    /// Whether the store must be written back after this command: every
    /// command but `Show` may change it.
    pub fn persists(&self) -> (r: bool)
        ensures
            r == !(self is Show),
    {
        match self {
            Command::Show { .. } => false,
            _ => true,
        }
    }
}

} // verus!
