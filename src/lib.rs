//! A small personal value store: key/value pairs kept in a JSON object file,
//! reached through a handful of command-line commands.

pub mod cmd;
pub mod error;
pub mod file;
pub mod help;
pub mod json;
pub mod prompt;
