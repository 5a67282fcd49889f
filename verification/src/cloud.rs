//! The protocol between client and host.

pub mod client;
pub mod server;
pub mod types;
