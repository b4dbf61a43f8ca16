//! Peer ids as socket addresses.
//!
//! The peers of this transport are known by 64-bit ids. The rest of the library knows peers by
//! socket address, so an id travels as the low half of an IPv6 address.
use vstd::prelude::*;
use crate::transport::address::{SocketAddr, SocketAddrV4, SocketAddrV6};
use crate::transport::queue::Plain;

verus! {

/// How many milliseconds a task sleeps when it has nothing to do.
pub const YIELD_DELAY: u32 = 5;

/// What goes through the queues of a socket.
#[derive(Debug, PartialEq, Eq)]
pub enum Message {
    /// A packet.
    Binary(Vec<u8>),
    /// The end of the connection.
    Close,
}

impl Plain for Message {

}

impl Plain for (SocketAddr, Message) {

}

/// A message, with a packet as its bytes.
pub enum MessageView {
    /// A packet.
    Binary(Seq<u8>),
    /// The end of the connection.
    Close,
}

impl View for Message {
    type V = MessageView;

    open spec fn view(&self) -> MessageView {
        match self {
            Message::Binary(bytes) => MessageView::Binary(bytes@),
            Message::Close => MessageView::Close,
        }
    }
}

/// The number of ids.
pub open spec fn id_count() -> int {
    0x1_0000_0000_0000_0000
}

/// The id that an address stands for: the low half of an IPv6 address. All IPv4 addresses share
/// the highest id.
pub open spec fn id_of(socket_addr: SocketAddr) -> u64 {
    match socket_addr {
        SocketAddr::V6(addr) => (addr.ip as int % id_count()) as u64,
        SocketAddr::V4(_) => u64::MAX,
    }
}

/// The address that stands for an id.
pub open spec fn address_of(id: u64) -> SocketAddr {
    SocketAddr::V6(SocketAddrV6 { ip: id as u128, port: 0, flowinfo: 0, scope_id: 0 })
}

/// The id of the peer at an address.
pub fn socket_addr_to_id(socket_addr: &SocketAddr) -> (id: u64)
    ensures
        id == id_of(*socket_addr),
{
    match socket_addr {
        SocketAddr::V6(addr) => {
            let ip = addr.ip;
            assert(ip as u64 == ip % 0x1_0000_0000_0000_0000u128) by (bit_vector);
            ip as u64
        },
        SocketAddr::V4(_) => u64::MAX,
    }
}

/// The address of the peer with an id.
pub fn id_to_socket_addr(id: u64) -> (socket_addr: SocketAddr)
    ensures
        socket_addr == address_of(id),
{
    SocketAddr::V6(SocketAddrV6 { ip: id as u128, port: 0, flowinfo: 0, scope_id: 0 })
}

/// An id survives the way through an address.
pub proof fn law_id_survives_as_address(id: u64)
    ensures
        id_of(address_of(id)) == id,
{
}

/// Different ids have different addresses.
pub proof fn law_addresses_tell_ids_apart(a: u64, b: u64)
    ensures
        address_of(a) == address_of(b) <==> a == b,
{
    law_id_survives_as_address(a);
    law_id_survives_as_address(b);
}

/// Exactly the IPv6 addresses with nothing but an id in them survive the way through the id.
pub proof fn law_address_survives_as_id(socket_addr: SocketAddr)
    ensures
        address_of(id_of(socket_addr)) == socket_addr <==> (socket_addr matches SocketAddr::V6(addr)
            && addr.ip < id_count() && addr.port == 0 && addr.flowinfo == 0 && addr.scope_id == 0),
{
}

/// The id of an IPv6 address is its low half, whatever is in the 64 bits above it, and whatever
/// the port, the flow information and the scope are.
pub proof fn law_the_id_is_the_low_half_of_the_address(
    addr: SocketAddrV6,
    high: u64,
    low: u64,
    id: u64,
)
    requires
        addr.ip == high * 0x1_0000_0000_0000_0000 + low,
        call_ensures(socket_addr_to_id, (&SocketAddr::V6(addr),), id),
    ensures
        id == low,
{
}

/// Two IPv6 addresses have the same id exactly if they differ by a multiple of 2 to the 64th,
/// whatever the port, the flow information and the scope of each.
pub proof fn law_ids_tell_low_halves_apart(
    a: SocketAddrV6,
    b: SocketAddrV6,
    id_of_a: u64,
    id_of_b: u64,
)
    requires
        call_ensures(socket_addr_to_id, (&SocketAddr::V6(a),), id_of_a),
        call_ensures(socket_addr_to_id, (&SocketAddr::V6(b),), id_of_b),
    ensures
        id_of_a == id_of_b <==> (a.ip - b.ip) % 0x1_0000_0000_0000_0000 == 0,
{
}

/// All IPv4 addresses have the highest id.
pub proof fn law_ipv4_addresses_have_the_highest_id(addr: SocketAddrV4, id: u64)
    requires
        call_ensures(socket_addr_to_id, (&SocketAddr::V4(addr),), id),
    ensures
        id == 0xffff_ffff_ffff_ffff,
{
}

/// The address of an id holds the id and nothing else, and its id is that id.
pub proof fn law_an_id_is_all_that_its_address_holds(id: u64, addr: SocketAddr, back: u64)
    requires
        call_ensures(id_to_socket_addr, (id,), addr),
        call_ensures(socket_addr_to_id, (&addr,), back),
    ensures
        addr matches SocketAddr::V6(a) && a.ip == id && a.port == 0 && a.flowinfo == 0
            && a.scope_id == 0,
        back == id,
{
}

/// The view of a message keeps its kind and, of a packet, all bytes.
pub proof fn law_a_message_is_seen_as_it_is(message: Message, bytes: Seq<u8>)
    ensures
        message@ == MessageView::Binary(bytes) <==> (message matches Message::Binary(data) && data@
            == bytes),
        message@ == MessageView::Close <==> message == Message::Close,
{
}

}
