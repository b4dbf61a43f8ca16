//! What both peers agree on: the registered channels and their ids on the network.

pub mod channel;
pub mod laws;
pub mod registry;
