//! A task tracker for the command line that keeps its tasks in one SQLite
//! table.
//!
//! One invocation is one [`session::Session`]: the command line is read into
//! a [`command::Command`], the session says what to do next
//! ([`session::Action`]), and whoever runs it hands back what happened
//! ([`session::Event`]). Everything that is decided is decided here; the
//! caller prints, reads the answer to a question where one is asked, and lets
//! the [`store::Store`] run the one statement that an invocation sends.

pub mod command;
pub mod confirm;
pub mod laws;
pub mod report;
pub mod request;
pub mod session;
pub mod status;
pub mod store;
pub mod task;
pub mod text;
