//! The command line: the arguments of each command, and what the commands decide
//! and print that does not need the terminal.
pub mod commands;
pub mod output;
