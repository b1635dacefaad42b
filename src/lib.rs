//! A personal task tracker: pending tasks, completed tasks and notes, with
//! the operations that add, complete, list and clear them.
pub mod cli;
pub mod laws;
pub mod text;
pub mod todo;

pub use cli::{Cli, Command, TodoElements};
pub use todo::{StoreError, Todo};
