//! A todo list kept in a SQLite table: the commands, the statements sent to
//! the store, the decoding of its rows and the lines shown for them.

pub mod todo;
pub mod command;
pub mod store;
pub mod run;
