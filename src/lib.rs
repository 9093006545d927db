//! A personal task tracker: an ordered task store keyed by name, the command
//! catalog that drives the interactive menu, and the decisions taken on each
//! line of user input.

pub mod command;
pub mod input;
pub mod store;
pub mod task;
