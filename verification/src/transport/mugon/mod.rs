//! Peer-to-peer transport between browsers.

pub mod client;
pub mod client_laws;
pub mod common;
pub mod server;
pub mod server_laws;
