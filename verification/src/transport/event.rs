//! Events that a transport reports, and the state it is in.
use vstd::prelude::*;
use crate::transport::address::SocketAddr;
use crate::transport::error::Error;

verus! {

/// Whether a transport can be used.
#[derive(Clone, Copy, Debug, PartialEq, Eq, Structural)]
pub enum IoState {
    /// It is being connected.
    Connecting,
    /// It is connected.
    Connected,
    /// It is not connected.
    Disconnected,
}

/// What happens to a client's transport.
#[derive(Debug, PartialEq, Eq)]
pub enum ClientIoEvent {
    /// The connection was made.
    Connected,
    /// The connection ended, or was not made.
    Disconnected(Error),
}

/// What happens to a server's transport.
#[derive(Debug, PartialEq, Eq)]
pub enum ServerIoEvent {
    /// The server is up.
    ServerConnected,
    /// The server is down.
    ServerDisconnected(Error),
    /// A client is gone.
    ClientDisconnected(SocketAddr),
}

}
