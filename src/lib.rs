//! Resolves the options of a `greet` command into the one line it prints.

pub mod greeter;
pub mod laws;

pub use greeter::{file_line, file_output, greeting_line, GreetError, Language, Request, Step};
