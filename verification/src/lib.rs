//! Channel registry and browser peer-to-peer ("mugon") transport of a networking library.

pub mod channel;
pub mod protocol;
pub mod transport;
pub mod vec_map;
