//! The command-line front end: argument records, terminal and progress
//! settings, and the dispatch of a command to its handler.
pub mod outcome;
pub mod terminal;
pub mod progress;
pub mod args;
pub mod commands;
