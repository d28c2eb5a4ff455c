//! An in-memory chat room: an append-only message log with range lookup,
//! the decisions of the services built on it, and the relay that streams
//! an echoed request back to its sender.

pub mod bounds;
pub mod chatroom;
pub mod config;
pub mod echo;
pub mod error;
pub mod log_laws;
pub mod message;
pub mod relay;
pub mod relay_laws;
pub mod service;
