//! What the server's side is for: how calls of its functions hang together.
//!
//! As in [`crate::protocol::laws`], `call_ensures(f, arguments, result)` says that a call of `f`
//! with these arguments has given this result.
use vstd::prelude::*;
use crate::transport::address::{SocketAddr, SocketAddrV6};
use crate::transport::error::{Error, IoError};
use crate::transport::event::{IoState, ServerIoEvent};
use crate::transport::mugon::common::{Message, MessageView};
use crate::transport::mugon::server::{
    clientbound_result, decide_session, ClientSession, MugonServerBuilder, MugonServerSocket,
    MugonServerSocketReceiver, MugonServerSocketSender, OnNewMessage, Outgoing, ServerStart,
    ServerStatus, SessionAction, SessionPhase,
};
use crate::transport::queue::{lemma_grown, Look, NotReceived, Refused};

verus! {

/// Starting a server succeeds, at whatever address: the socket has that address and no client
/// yet, it gets what the page hands in, and the listener to reports hears first, and so far only,
/// that the server is up.
pub proof fn law_a_server_starts(
    builder: MugonServerBuilder,
    start: Result<ServerStart, Error>,
    socket: MugonServerSocket,
    local_addr: SocketAddr,
)
    requires
        call_ensures(MugonServerBuilder::start, (builder,), start),
        start matches Ok(s) && s.socket == socket,
        call_ensures(MugonServerSocket::local_addr, (&socket,), local_addr),
    ensures
        local_addr == builder.server_addr,
        ({
            let s = start->Ok_0;
            &&& s.state == IoState::Connecting
            &&& s.close_tx is None
            &&& s.events is Some
            &&& s.events->Some_0.link() == s.status.queue()
            &&& s.events->Some_0.log().len() == 0
            &&& s.events->Some_0.looks().len() == 0
            &&& s.status.reported() == seq![ServerIoEvent::ServerConnected]
            &&& s.status.attempted() == seq![ServerIoEvent::ServerConnected]
            &&& s.on_new_message.queue() == socket.receiver().queue()
            &&& s.on_new_message.queued().len() == 0
            &&& s.on_new_message.attempted().len() == 0
            &&& s.on_new_message.in_order()
            &&& socket.receiver().taken().len() == 0
            &&& socket.receiver().looks().len() == 0
            &&& socket.receiver().in_order()
            &&& socket.sender().wf()
            &&& forall|addr: SocketAddr| !#[trigger] socket.sender().clients().contains_key(addr)
        }),
{
}

/// Starting a server never fails.
pub proof fn law_starting_never_fails(
    builder: MugonServerBuilder,
    start: Result<ServerStart, Error>,
)
    requires
        call_ensures(MugonServerBuilder::start, (builder,), start),
    ensures
        start is Ok,
{
}

/// A server registers under the id of its address: the low half of an IPv6 address, whatever its
/// port, and the highest id for an IPv4 address.
pub proof fn law_a_server_registers_under_its_id(
    builder: MugonServerBuilder,
    start: Result<ServerStart, Error>,
)
    requires
        call_ensures(MugonServerBuilder::start, (builder,), start),
    ensures
        start matches Ok(s) && match builder.server_addr {
            SocketAddr::V6(addr) => (addr.ip - s.own_id) % 0x1_0000_0000_0000_0000 == 0,
            SocketAddr::V4(_) => s.own_id == 0xffff_ffff_ffff_ffff,
        },
{
}

/// A client that connects gets a queue of its own, whatever clients there are: it is the one that
/// its session takes from, nothing was put into it yet, and it takes the place of one that the
/// client may have had. All other clients keep theirs, and none is added or lost.
pub proof fn law_every_client_gets_a_queue(
    addr: SocketAddr,
    sender: &mut MugonServerSocketSender,
    session: ClientSession,
    other: SocketAddr,
)
    requires
        call_ensures(ClientSession::open, (addr, sender), session),
    ensures
        final(sender).wf(),
        final(sender).clients().contains_key(addr),
        final(sender).clients()[addr].queue == session.queue(),
        final(sender).clients()[addr].log.len() == 0,
        final(sender).clients()[addr].attempts.len() == 0,
        other != addr ==> {
            let (before, after) = (old(sender).clients(), final(sender).clients());
            &&& after.contains_key(other) <==> before.contains_key(other)
            &&& before.contains_key(other) ==> after[other] == before[other]
        },
        session.addr() == addr,
        session.phase() == SessionPhase::Open,
        session.taken().len() == 0,
        session.looks().len() == 0,
        session.in_order(),
{
}

/// A packet for a client that has a queue is handed to that queue, with all its bytes and behind
/// what was handed over before; a packet for anybody else is refused, and that is the only reason
/// but for a queue that is gone. No other client's queue changes, and no client is added or lost.
pub proof fn law_a_packet_goes_to_its_client(
    sender: &mut MugonServerSocketSender,
    payload: &[u8],
    address: SocketAddr,
    sent: Result<(), Error>,
    other: SocketAddr,
)
    requires
        call_ensures(MugonServerSocketSender::send, (sender, payload, &address), sent),
    ensures
        ({
            let (before, after) = (old(sender).clients(), final(sender).clients());
            &&& after.contains_key(other) <==> before.contains_key(other)
            &&& other != address && before.contains_key(other) ==> after[other] == before[other]
        }),
        old(sender).clients().contains_key(address) ==> {
            let before = old(sender).clients()[address];
            let after = final(sender).clients()[address];
            &&& after.queue == before.queue
            &&& after.attempts == before.attempts.push(MessageView::Binary(payload@))
            &&& match sent {
                Ok(()) => after.log == before.log.push(MessageView::Binary(payload@)),
                Err(Error::Io(IoError::Other(text))) => after.log == before.log && text@
                    == "unable to send message to client: "@ + "channel closed"@,
                _ => false,
            }
        },
        !old(sender).clients().contains_key(address) ==> sent == Err::<(), Error>(
            Error::Io(IoError::UnknownClient(address)),
        ),
        final(sender).wf(),
        final(sender).spec_server_addr() == old(sender).spec_server_addr(),
{
}

/// A refusal by a client's queue becomes an error that tells the reason, and nothing else becomes
/// one.
pub proof fn law_a_refusal_is_told(outcome: Result<(), Refused<Message>>, sent: Result<(), Error>)
    requires
        call_ensures(clientbound_result, (outcome,), sent),
    ensures
        match (outcome, sent) {
            (Ok(()), Ok(())) => true,
            (Err(refused), Err(Error::Io(IoError::Other(text)))) => text@
                == "unable to send message to client: "@ + refused.display@,
            _ => false,
        },
{
}

/// A client that has connected can be sent to: the packet is not refused for want of a queue, and
/// if its session takes something out then, that is this packet, which it sends on with all its
/// bytes.
pub proof fn law_a_connected_client_gets_its_packets(
    addr: SocketAddr,
    at_open: &mut MugonServerSocketSender,
    opened: ClientSession,
    at_send: &mut MugonServerSocketSender,
    payload: &[u8],
    sent: Result<(), Error>,
    session: &mut ClientSession,
    action: SessionAction,
)
    requires
        call_ensures(ClientSession::open, (addr, at_open), opened),
        *old(at_send) == *final(at_open),
        call_ensures(MugonServerSocketSender::send, (at_send, payload, &addr), sent),
        *old(session) == opened,
        call_ensures(ClientSession::poll, (session,), action),
    ensures
        sent != Err::<(), Error>(Error::Io(IoError::UnknownClient(addr))),
        sent is Ok && final(session).taken().len() > 0 ==> (action matches SessionAction::Send(
            packet,
        ) && packet@ == payload@),
{
    let client = final(at_send).clients()[addr];
    if sent is Ok && final(session).taken().len() > 0 {
        lemma_grown(old(session).looks(), final(session).looks());
        assert(client.log[0] == MessageView::Binary(payload@));
        assert(final(session).taken()[0]@ == client.log[0]);
    }
}

/// A packet that was put into a client's queue is the one that its session sends, when it comes
/// to it: if as many were taken before it as were put in before it, and the session now takes
/// one.
pub proof fn law_a_packet_put_in_is_the_packet_sent(
    sender: &mut MugonServerSocketSender,
    payload: &[u8],
    address: SocketAddr,
    sent: Result<(), Error>,
    session: &mut ClientSession,
    action: SessionAction,
)
    requires
        call_ensures(MugonServerSocketSender::send, (sender, payload, &address), sent),
        sent is Ok,
        call_ensures(ClientSession::poll, (session,), action),
        old(sender).clients().contains_key(address),
        old(sender).clients()[address].queue == old(session).queue(),
        old(session).in_order(),
        old(session).taken().len() == old(sender).clients()[address].log.len(),
        final(session).taken().len() > old(session).taken().len(),
    ensures
        action matches SessionAction::Send(packet) && packet@ == payload@,
{
    let client = final(sender).clients()[address];
    let n = old(session).taken().len() as int;
    lemma_grown(old(session).looks(), final(session).looks());
    assert(client.log[n] == MessageView::Binary(payload@));
    assert(final(session).taken()[n]@ == client.log[n]);
}

/// A session looks into its client's queue exactly once at every turn while the client is served,
/// and not at all after that. A packet is sent, unchanged; the end of the connection closes it;
/// and where there is nothing, the session waits.
pub proof fn law_a_session_serves_its_client(session: &mut ClientSession, action: SessionAction)
    requires
        call_ensures(ClientSession::poll, (session,), action),
        old(session).phase() == SessionPhase::Open,
    ensures
        final(session).addr() == old(session).addr(),
        final(session).queue() == old(session).queue(),
        final(session).looks().len() == old(session).looks().len() + 1,
        final(session).looks().drop_last() == old(session).looks(),
        match final(session).looks().last() {
            Ok(Message::Binary(data)) => action == SessionAction::Send(data)
                && final(session).phase() == SessionPhase::Open,
            Ok(Message::Close) => action == SessionAction::Close && final(session).phase()
                == SessionPhase::Closed,
            Err(_) => action == SessionAction::Wait && final(session).phase()
                == SessionPhase::Open,
        },
        match final(session).looks().last() {
            Ok(message) => final(session).taken() == old(session).taken().push(message),
            Err(_) => final(session).taken() == old(session).taken(),
        },
{
    lemma_grown(old(session).looks(), final(session).looks());
}

/// A session whose client is not served any more closes the connection, once, and ends after
/// that, without another look into the queue.
pub proof fn law_a_session_closes_and_ends(session: &mut ClientSession, action: SessionAction)
    requires
        call_ensures(ClientSession::poll, (session,), action),
        old(session).phase() != SessionPhase::Open,
    ensures
        final(session).addr() == old(session).addr(),
        final(session).queue() == old(session).queue(),
        final(session).looks() == old(session).looks(),
        final(session).taken() == old(session).taken(),
        final(session).phase() == SessionPhase::Ended,
        old(session).phase() == SessionPhase::Closed ==> action == SessionAction::Close,
        old(session).phase() == SessionPhase::Ended ==> action == SessionAction::Finish,
{
    lemma_grown(old(session).looks(), final(session).looks());
}

/// What a waiting session is handed counts as what it finds itself; a queue that is gone closes
/// the connection.
pub proof fn law_a_session_takes_what_it_is_handed(
    session: &mut ClientSession,
    message: Option<Message>,
    action: SessionAction,
)
    requires
        call_ensures(ClientSession::on_message, (session, message), action),
    ensures
        final(session).addr() == old(session).addr(),
        final(session).queue() == old(session).queue(),
        final(session).looks() == old(session).looks(),
        final(session).taken() == old(session).taken(),
        old(session).phase() == SessionPhase::Open ==> match message {
            Some(Message::Binary(data)) => action == SessionAction::Send(data)
                && final(session).phase() == SessionPhase::Open,
            Some(Message::Close) => action == SessionAction::Close && final(session).phase()
                == SessionPhase::Closed,
            None => action == SessionAction::Close && final(session).phase()
                == SessionPhase::Ended,
        },
        old(session).phase() == SessionPhase::Closed ==> action == SessionAction::Close
            && final(session).phase() == SessionPhase::Ended,
        old(session).phase() == SessionPhase::Ended ==> action == SessionAction::Finish
            && final(session).phase() == SessionPhase::Ended,
{
}

/// A packet that the page did not take ends the service of the client; one that it took changes
/// nothing.
pub proof fn law_a_lost_packet_ends_the_service(
    session: &mut ClientSession,
    delivered: bool,
    open: bool,
)
    requires
        call_ensures(ClientSession::on_sent, (session, delivered), ()),
        call_ensures(ClientSession::is_open, (&*final(session),), open),
    ensures
        delivered ==> final(session).phase() == old(session).phase(),
        !delivered ==> !open,
        old(session).phase() == SessionPhase::Open && !delivered ==> final(session).phase()
            == SessionPhase::Closed,
        old(session).phase() != SessionPhase::Open ==> final(session).phase()
            == old(session).phase(),
        open <==> final(session).phase() == SessionPhase::Open,
        final(session).addr() == old(session).addr(),
        final(session).queue() == old(session).queue(),
        final(session).looks() == old(session).looks(),
        final(session).taken() == old(session).taken(),
{
}

/// The decision alone.
pub proof fn law_how_a_session_decides(
    outgoing: Outgoing,
    open: (SessionPhase, SessionAction),
    closed: (SessionPhase, SessionAction),
    ended: (SessionPhase, SessionAction),
)
    requires
        call_ensures(decide_session, (SessionPhase::Open, outgoing), open),
        call_ensures(decide_session, (SessionPhase::Closed, outgoing), closed),
        call_ensures(decide_session, (SessionPhase::Ended, outgoing), ended),
    ensures
        closed == (SessionPhase::Ended, SessionAction::Close),
        ended == (SessionPhase::Ended, SessionAction::Finish),
        match outgoing {
            Outgoing::Message(Message::Binary(data)) => open == (
                SessionPhase::Open,
                SessionAction::Send(data),
            ),
            Outgoing::Message(Message::Close) => open == (
                SessionPhase::Closed,
                SessionAction::Close,
            ),
            Outgoing::Nothing => open == (SessionPhase::Open, SessionAction::Wait),
            Outgoing::HungUp => open == (SessionPhase::Ended, SessionAction::Close),
        },
{
}

/// The packets of a session go to the id of its client's address: the low half of an IPv6
/// address, whatever its port, and the highest id for an IPv4 address.
pub proof fn law_a_session_sends_to_its_client(session: ClientSession, id: u64)
    requires
        call_ensures(ClientSession::client_id, (&session,), id),
    ensures
        match session.addr() {
            SocketAddr::V6(addr) => (addr.ip - id) % 0x1_0000_0000_0000_0000 == 0,
            SocketAddr::V4(_) => id == 0xffff_ffff_ffff_ffff,
        },
{
}

/// At the end of a session its client has no queue any more, all others keep theirs, and that the
/// client is gone is to be reported, once.
pub proof fn law_a_finished_session_is_forgotten(
    session: ClientSession,
    sender: &mut MugonServerSocketSender,
    status: &mut ServerStatus,
    done: Result<(), Error>,
    other: SocketAddr,
)
    requires
        call_ensures(ClientSession::finish, (session, sender, status), done),
    ensures
        final(sender).wf(),
        !final(sender).clients().contains_key(session.addr()),
        other != session.addr() ==> {
            let (before, after) = (old(sender).clients(), final(sender).clients());
            &&& after.contains_key(other) <==> before.contains_key(other)
            &&& before.contains_key(other) ==> after[other] == before[other]
        },
        final(status).queue() == old(status).queue(),
        final(status).attempted() == old(status).attempted().push(
            ServerIoEvent::ClientDisconnected(session.addr()),
        ),
        done is Ok ==> final(status).reported() == old(status).reported().push(
            ServerIoEvent::ClientDisconnected(session.addr()),
        ),
        done is Err ==> done == Err::<(), Error>(Error::Channel) && final(status).reported()
            == old(status).reported(),
{
}

/// A packet that the page hands in is put into the socket's queue, with all its bytes, behind what
/// was put in before, and with the address that holds the client's id and nothing else.
pub proof fn law_what_the_page_hands_in_is_queued(
    handler: &mut OnNewMessage,
    id: u64,
    data: Vec<u8>,
    done: Result<(), Error>,
)
    requires
        call_ensures(OnNewMessage::call, (handler, id, data), done),
    ensures
        ({
            let addr = SocketAddrV6 { ip: id as u128, port: 0, flowinfo: 0, scope_id: 0 };
            let entry = (SocketAddr::V6(addr), Message::Binary(data));
            &&& final(handler).queue() == old(handler).queue()
            &&& final(handler).attempted() == old(handler).attempted().push(entry)
            &&& done is Ok ==> final(handler).queued() == old(handler).queued().push(entry)
            &&& done is Err ==> done == Err::<(), Error>(Error::Channel)
                && final(handler).queued() == old(handler).queued()
        }),
{
}

/// What the page hands in is what comes out of the socket, when it comes to it: the bytes come
/// out unchanged if they are at most 1472, with the address of the client, and more are reported
/// by their number.
pub proof fn law_what_the_page_hands_in_comes_out(
    handler: &mut OnNewMessage,
    id: u64,
    data: Vec<u8>,
    done: Result<(), Error>,
    receiver: &mut MugonServerSocketReceiver,
    packet: Result<Option<(&mut [u8], SocketAddr)>, Error>,
)
    requires
        call_ensures(OnNewMessage::call, (handler, id, data), done),
        done is Ok,
        call_ensures(MugonServerSocketReceiver::recv, (receiver,), packet),
        old(handler).queue() == old(receiver).queue(),
        old(receiver).in_order(),
        old(receiver).taken().len() == old(handler).queued().len(),
        final(receiver).taken().len() > old(receiver).taken().len(),
    ensures
        if data@.len() <= 1472 {
            packet matches Ok(Some((out, SocketAddr::V6(addr)))) && out@ == data@ && addr.ip == id
                && addr.port == 0 && addr.flowinfo == 0 && addr.scope_id == 0
        } else {
            packet matches Err(Error::PacketTooLong(len)) && len == data@.len()
        },
{
    let n = old(handler).queued().len() as int;
    assert(final(handler).queued()[n] == final(receiver).taken()[n]);
}

/// Receiving looks into the queue exactly once, takes out what the look has found and nothing
/// else, and tells what it has found.
pub proof fn law_receiving_tells_what_was_found(
    receiver: &mut MugonServerSocketReceiver,
    packet: Result<Option<(&mut [u8], SocketAddr)>, Error>,
)
    requires
        call_ensures(MugonServerSocketReceiver::recv, (receiver,), packet),
    ensures
        final(receiver).queue() == old(receiver).queue(),
        final(receiver).looks().len() == old(receiver).looks().len() + 1,
        final(receiver).looks().drop_last() == old(receiver).looks(),
        match final(receiver).looks().last() {
            Ok(message) => final(receiver).taken() == old(receiver).taken().push(message),
            Err(_) => final(receiver).taken() == old(receiver).taken(),
        },
        match final(receiver).looks().last() {
            Ok((client, Message::Binary(data))) => if data@.len() <= 1472 {
                packet matches Ok(Some((out, addr))) && out@ == data@ && addr == client
            } else {
                packet matches Err(Error::PacketTooLong(len)) && len == data@.len()
            },
            Ok((_, Message::Close)) => packet matches Ok(None),
            Err(NotReceived::Empty) => packet matches Ok(None),
            Err(NotReceived::Disconnected(_)) => packet matches Err(
                Error::Io(IoError::Other(text)),
            ) && text@ == "unable to receive message from client: "@
                + "receiving on a closed channel"@,
        },
{
    lemma_grown(old(receiver).looks(), final(receiver).looks());
}

/// What a result of the queue means, whatever the result.
pub proof fn law_a_result_of_the_queue_is_told(
    receiver: &mut MugonServerSocketReceiver,
    received: Look<(SocketAddr, Message)>,
    packet: Result<Option<(&mut [u8], SocketAddr)>, Error>,
)
    requires
        call_ensures(MugonServerSocketReceiver::receive, (receiver, received), packet),
    ensures
        match received {
            Ok((client, Message::Binary(data))) => packet matches Ok(Some((out, addr))) && out@
                == data@ && addr == client,
            Ok((_, Message::Close)) => packet matches Ok(None),
            Err(NotReceived::Empty) => packet matches Ok(None),
            Err(NotReceived::Disconnected(reason)) => packet matches Err(
                Error::Io(IoError::Other(text)),
            ) && text@ == "unable to receive message from client: "@ + reason@,
        },
        final(receiver).taken() == old(receiver).taken(),
        final(receiver).looks() == old(receiver).looks(),
        final(receiver).queue() == old(receiver).queue(),
{
}

/// That a client is gone is to be reported under the address that holds its id and nothing else.
pub proof fn law_the_loss_of_a_client_is_told(
    status: &mut ServerStatus,
    id: u64,
    done: Result<(), Error>,
)
    requires
        call_ensures(ServerStatus::on_disconnected_from, (status, id), done),
    ensures
        ({
            let addr = SocketAddrV6 { ip: id as u128, port: 0, flowinfo: 0, scope_id: 0 };
            let event = ServerIoEvent::ClientDisconnected(SocketAddr::V6(addr));
            &&& final(status).queue() == old(status).queue()
            &&& final(status).attempted() == old(status).attempted().push(event)
            &&& done is Ok ==> final(status).reported() == old(status).reported().push(event)
            &&& done is Err ==> done == Err::<(), Error>(Error::Channel)
                && final(status).reported() == old(status).reported()
        }),
{
}

/// Another handle for reports has the same listener and has reported nothing; and the two ends of
/// a socket are the ones that it was made with.
pub proof fn law_handles_and_ends(
    status: ServerStatus,
    another: ServerStatus,
    socket: MugonServerSocket,
    ends: (MugonServerSocketSender, MugonServerSocketReceiver),
)
    requires
        call_ensures(ServerStatus::another, (&status,), another),
        call_ensures(MugonServerSocket::split, (socket,), ends),
    ensures
        another.queue() == status.queue(),
        another.reported().len() == 0,
        another.attempted().len() == 0,
        ends.0 == socket.sender(),
        ends.1 == socket.receiver(),
{
}

}
