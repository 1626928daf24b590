//! Protocol bridge between a line-oriented JSON command stream and a
//! persistent session with a remote task-distribution service.
//!
//! The crate holds the decisions of the bridge: reading the credential,
//! judging the handshake, turning command lines into requests, and turning
//! what the remote side sent into output lines. Reading lines, the socket and
//! the output stream are left to the program that drives [`bridge::step`].

pub mod json;
pub mod document;
pub mod lines;
pub mod error;
pub mod text;
pub mod credential;
pub mod command;
pub mod reply;
pub mod one_shot;
pub mod bridge;
pub mod laws;
