//! The protocol core of a small mail server: a decoder for client lines and
//! the state machine of one connection, with their contracts.
//!
//! The caller reads lines from the connection, hands each to the
//! [`session::Session`], and writes the status line that comes back. Nothing
//! here touches the network.
pub mod command;
pub mod session;
pub mod status;
pub mod text;
pub mod transaction;
