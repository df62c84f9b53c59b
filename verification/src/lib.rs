//! A to-do list for one local user: the task model, the text it shows, and
//! the menu dialogue that drives it, each with a contract that Verus proves.
//!
//! The crate performs no input or output of its own. A front end prints the
//! spans it is handed, reads lines, and stores the task records when told to.

pub mod output;
pub mod repl;
pub mod store;
pub mod task;
pub mod text;
