//! Verified core of a remote-execution client: authentication messages and
//! their state machine, envelope framing and encoding, response correlation,
//! output formatting, and the pure decision logic of the shell bridge.

pub mod auth;
pub mod auth_machine;
pub mod codec;
pub mod config;
pub mod data;
pub mod format;
pub mod mux;
pub mod network;
pub mod shell;
pub mod text;
