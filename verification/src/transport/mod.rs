//! Transports: addresses, queues, events and the sockets made from them.

pub mod address;
pub mod error;
pub mod event;
pub mod mugon;
pub mod packet;
pub mod queue;
pub mod signal;
