//! The engine of a super repository: a working tree whose members are git
//! repositories of their own.
//!
//! The library finds the members (`resolve`), synchronises each of them
//! with its remote (`sync`), runs a command in each (`dispatch`) and makes
//! the lines that report what happened (`report`). It starts no program and
//! reads no file: every command goes through a gateway that the caller
//! hands in, a function from a command and a directory to what the command
//! gave back, and every function here says what it does for whatever the
//! gateway answers.

pub mod command;
pub mod custom;
pub mod dispatch;
pub mod git;
pub mod process;
pub mod repo;
pub mod report;
pub mod resolve;
pub mod status;
pub mod sync;
pub mod text;
