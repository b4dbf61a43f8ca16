//! Socket addresses.
use vstd::prelude::*;
use crate::vec_map::Key;

verus! {

/// An IPv4 address with a port.
#[derive(Clone, Copy, Debug, PartialEq, Eq, Hash, Structural)]
pub struct SocketAddrV4 {
    /// The address, its first octet in the highest bits.
    pub ip: u32,
    /// The port.
    pub port: u16,
}

/// An IPv6 address with a port.
#[derive(Clone, Copy, Debug, PartialEq, Eq, Hash, Structural)]
pub struct SocketAddrV6 {
    /// The address, its first segment in the highest bits.
    pub ip: u128,
    /// The port.
    pub port: u16,
    /// The flow information.
    pub flowinfo: u32,
    /// The scope id.
    pub scope_id: u32,
}

/// The address of a peer.
#[derive(Clone, Copy, Debug, PartialEq, Eq, Hash, Structural)]
pub enum SocketAddr {
    /// An IPv4 address.
    V4(SocketAddrV4),
    /// An IPv6 address.
    V6(SocketAddrV6),
}

impl Key for SocketAddr {
    fn same(&self, other: &Self) -> (same: bool) {
        *self == *other
    }
}

/// 127.0.0.1 without a port: what stands for the local address of a socket that has none.
pub open spec fn spec_local_socket() -> SocketAddr {
    SocketAddr::V4(SocketAddrV4 { ip: 0x7f00_0001, port: 0 })
}

/// 127.0.0.1 without a port: what stands for the local address of a socket that has none.
pub fn local_socket() -> (addr: SocketAddr)
    ensures
        addr == spec_local_socket(),
{
    SocketAddr::V4(SocketAddrV4 { ip: 0x7f00_0001, port: 0 })
}

}
