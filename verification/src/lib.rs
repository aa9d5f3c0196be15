//! Decision logic of the `keen` linter and runner: which checker, formatter or
//! runner a file gets, where its project root lies, how compiler output is
//! classified and what the shell integration advises. Everything that touches
//! the file system, spawns processes or prints lives outside this library; the
//! library hands plain values (commands, plans, styled lines) to it.
pub mod text;
pub mod diagnostics;
pub mod paths;
pub mod command;
pub mod check;
pub mod run;
pub mod cli;
pub mod install;
pub mod laws;
pub mod tables;
