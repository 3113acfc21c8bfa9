//! Session management for a command-line chess engine that speaks a
//! line-oriented text protocol.

pub mod clock;
pub mod config;
pub mod engine;
pub mod notation;
pub mod protocol;
pub mod session;
pub mod text;
pub mod tournament;
pub mod traces;
