//! The server's side.
use async_channel::Sender;
use vstd::prelude::*;
use crate::transport::address::SocketAddr;
use crate::transport::error::{accepted, io_error, Error, IoError};
use crate::transport::event::{IoState, ServerIoEvent};
use crate::transport::mugon::common::{
    address_of, id_of, id_to_socket_addr, socket_addr_to_id, Message, MessageView,
};
use crate::transport::packet::{copy_of, PacketBuffer, MTU};
use crate::transport::queue::{
    added, extended, extends, follows, law_values_come_out_as_they_went_in, queue, taken_at, Inbox,
    Link, Look, NotReceived, Outbox, Refused,
};
use crate::transport::signal::{signal, SignalReceiver, SignalSender};
use crate::vec_map::VecMap;

verus! {

/// The end of a socket that packets to the clients go into: one queue for each client.
pub struct MugonServerSocketSender {
    server_addr: SocketAddr,
    addr_to_clientbound_tx: VecMap<SocketAddr, Outbox<Message>>,
}

/// The queue of a client.
#[verifier::ext_equal]
pub struct ClientQueue {
    /// Which queue it is.
    pub queue: Link<Message>,
    /// What was put into it, oldest first.
    pub log: Seq<MessageView>,
    /// What it was asked to take, oldest first.
    pub attempts: Seq<MessageView>,
}

impl ClientQueue {
    /// Whether what was put in is the first that the queue takes, in order.
    pub open spec fn in_order(self) -> bool {
        forall|i: int|
            0 <= i < self.log.len() ==> #[trigger] self.log[i] == (self.queue.stream)(i)@
    }
}

/// The queue of each client.
pub type ClientQueues = Map<SocketAddr, ClientQueue>;

/// The queue behind its sending end.
pub open spec fn client_queue(outbox: Outbox<Message>) -> ClientQueue {
    ClientQueue {
        queue: outbox.link(),
        log: outbox.log().map_values(|message: Message| message@),
        attempts: outbox.attempts().map_values(|message: Message| message@),
    }
}

/// The queues after one of them was asked to take a packet, and took it or not.
pub open spec fn with_packet(
    clients: ClientQueues,
    address: SocketAddr,
    packet: Seq<u8>,
    taken: bool,
) -> ClientQueues {
    let before = clients[address];
    clients.insert(
        address,
        ClientQueue {
            queue: before.queue,
            log: if taken {
                before.log.push(MessageView::Binary(packet))
            } else {
                before.log
            },
            attempts: before.attempts.push(MessageView::Binary(packet)),
        },
    )
}

/// The queues after a client has got a new one.
pub open spec fn with_client(
    clients: ClientQueues,
    address: SocketAddr,
    queue: Link<Message>,
) -> ClientQueues {
    clients.insert(address, ClientQueue { queue, log: Seq::empty(), attempts: Seq::empty() })
}

/// What it means whether the queue of a client took a packet.
pub fn clientbound_result(outcome: Result<(), Refused<Message>>) -> (sent: Result<(), Error>)
    ensures
        match outcome {
            Ok(()) => sent is Ok,
            Err(refused) => sent matches Err(error) && error.is_io(
                "unable to send message to client: "@ + refused.display@,
            ),
        },
{
    match outcome {
        Ok(()) => Ok(()),
        Err(refused) => Err(
            io_error("unable to send message to client: ", refused.display.as_str()),
        ),
    }
}

impl MugonServerSocketSender {
    /// No client has two queues.
    pub closed spec fn wf(&self) -> bool {
        self.addr_to_clientbound_tx.wf()
    }

    /// The address of the server.
    pub closed spec fn spec_server_addr(&self) -> SocketAddr {
        self.server_addr
    }

    /// The queues of the clients.
    pub closed spec fn clients(&self) -> ClientQueues {
        self.addr_to_clientbound_tx@.map_values(|outbox: Outbox<Message>| client_queue(outbox))
    }

    /// Puts a packet into the queue of the client at an address.
    pub fn send(&mut self, payload: &[u8], address: &SocketAddr) -> (sent: Result<(), Error>)
        requires
            old(self).wf(),
        ensures
            final(self).wf(),
            final(self).spec_server_addr() == old(self).spec_server_addr(),
            if old(self).clients().contains_key(*address) {
                &&& final(self).clients() == with_packet(
                    old(self).clients(),
                    *address,
                    payload@,
                    sent is Ok,
                )
                &&& final(self).clients()[*address].in_order()
                &&& sent matches Err(error) ==> error.is_io(
                    "unable to send message to client: "@ + "channel closed"@,
                )
            } else {
                &&& sent matches Err(error)
                &&& error == Error::Io(IoError::UnknownClient(*address))
                &&& final(self).clients() == old(self).clients()
            },
    {
        match self.addr_to_clientbound_tx.get_mut(address) {
            Some(clientbound_tx) => {
                let outcome = clientbound_tx.send(Message::Binary(copy_of(payload)));
                proof {
                    let before = old(self).clients()[*address];
                    let after = self.clients()[*address];
                    let message = MessageView::Binary(payload@);
                    assert(after.attempts =~= before.attempts.push(message));
                    if outcome is Ok {
                        assert(after.log =~= before.log.push(message));
                    } else {
                        assert(after.log =~= before.log);
                    }
                    assert(self.clients() =~= with_packet(
                        old(self).clients(),
                        *address,
                        payload@,
                        outcome is Ok,
                    ));
                }
                clientbound_result(outcome)
            },
            None => {
                assert(self.clients() =~= old(self).clients());
                Err(Error::Io(IoError::UnknownClient(*address)))
            },
        }
    }
}

/// The end of a socket that packets from the clients come out of.
pub struct MugonServerSocketReceiver {
    buffer: PacketBuffer,
    server_addr: SocketAddr,
    serverbound_rx: Inbox<(SocketAddr, Message)>,
}

impl MugonServerSocketReceiver {
    /// The queue from the clients.
    pub closed spec fn queue(&self) -> Link<(SocketAddr, Message)> {
        self.serverbound_rx.link()
    }

    /// The address of the server.
    pub closed spec fn spec_server_addr(&self) -> SocketAddr {
        self.server_addr
    }

    /// The bytes of the buffer.
    pub closed spec fn buffer(&self) -> Seq<u8> {
        self.buffer@
    }

    /// The messages that were taken out of the queue from the clients, oldest first.
    pub closed spec fn taken(&self) -> Seq<(SocketAddr, Message)> {
        self.serverbound_rx.log()
    }

    /// What each look into the queue from the clients has found, oldest first.
    pub closed spec fn looks(&self) -> Seq<Look<(SocketAddr, Message)>> {
        self.serverbound_rx.looks()
    }

    /// Whether the queue from the clients was ever handed out.
    pub closed spec fn is_lent(&self) -> bool {
        self.serverbound_rx.is_lent()
    }

    /// Whether the messages taken are the first that the queue from the clients takes, in order,
    /// and nobody else takes any.
    pub open spec fn in_order(&self) -> bool {
        !self.is_lent() && follows(self.taken(), self.queue())
    }

    /// What a result of the queue from the clients means: a packet is put into the buffer and
    /// handed out with the address of its client; the end of a connection, and a queue in which
    /// there is nothing, are nothing; and a queue that is gone is an error.
    pub fn receive(&mut self, received: Result<(SocketAddr, Message), NotReceived>) -> (packet:
        Result<Option<(&mut [u8], SocketAddr)>, Error>)
        requires
            received matches Ok((_, Message::Binary(data))) ==> data@.len() <= MTU,
        ensures
            final(self).queue() == old(self).queue(),
            final(self).spec_server_addr() == old(self).spec_server_addr(),
            final(self).taken() == old(self).taken(),
            final(self).looks() == old(self).looks(),
            final(self).is_lent() == old(self).is_lent(),
            match received {
                Ok((client, Message::Binary(data))) => match packet {
                    Ok(Some((bytes, addr))) => {
                        &&& bytes@ == data@
                        &&& addr == client
                        &&& final(self).buffer() == final(bytes)@ + old(self).buffer().skip(
                            data@.len() as int,
                        )
                    },
                    _ => false,
                },
                Ok((_, Message::Close)) | Err(NotReceived::Empty) => packet matches Ok(None)
                    && final(self).buffer() == old(self).buffer(),
                Err(NotReceived::Disconnected(reason)) => packet matches Err(error)
                    && error.is_io("unable to receive message from client: "@ + reason@)
                    && final(self).buffer() == old(self).buffer(),
            },
    {
        match received {
            Ok((addr, Message::Binary(data))) => Ok(Some((self.buffer.load(&data), addr))),
            Ok((_, Message::Close)) => Ok(None),
            Err(NotReceived::Empty) => Ok(None),
            Err(NotReceived::Disconnected(reason)) => Err(
                io_error("unable to receive message from client: ", reason.as_str()),
            ),
        }
    }

    /// The next packet from a client, if there is one: looks into the queue once, and what is
    /// found there decides; see [`MugonServerSocketReceiver::receive`]. A packet that is too long
    /// for the buffer is reported by its length.
    pub fn recv(&mut self) -> (packet: Result<Option<(&mut [u8], SocketAddr)>, Error>)
        ensures
            final(self).queue() == old(self).queue(),
            final(self).spec_server_addr() == old(self).spec_server_addr(),
            old(self).in_order() ==> final(self).in_order(),
            extends(old(self).looks(), final(self).looks()),
            final(self).taken() == extended(
                old(self).taken(),
                match added(old(self).looks(), final(self).looks()) {
                    Some(Ok(message)) => Some(message),
                    _ => None,
                },
            ),
            match added(old(self).looks(), final(self).looks()) {
                Some(Ok((client, Message::Binary(data)))) => if data@.len() <= MTU {
                    match packet {
                        Ok(Some((bytes, addr))) => {
                            &&& bytes@ == data@
                            &&& addr == client
                            &&& final(self).buffer() == final(bytes)@ + old(self).buffer().skip(
                                data@.len() as int,
                            )
                        },
                        _ => false,
                    }
                } else {
                    &&& packet matches Err(Error::PacketTooLong(len)) && len == data@.len()
                    &&& final(self).buffer() == old(self).buffer()
                },
                Some(Ok((_, Message::Close))) | Some(Err(NotReceived::Empty)) => {
                    &&& packet matches Ok(None)
                    &&& final(self).buffer() == old(self).buffer()
                },
                Some(Err(NotReceived::Disconnected(reason))) => {
                    &&& reason@ == "receiving on a closed channel"@
                    &&& packet matches Err(error) && error.is_io(
                        "unable to receive message from client: "@ + reason@,
                    )
                    &&& final(self).buffer() == old(self).buffer()
                },
                None => false,
            },
    {
        let received = self.serverbound_rx.try_recv();
        if let Ok((_, Message::Binary(data))) = &received {
            if data.len() > MTU {
                return Err(Error::PacketTooLong(data.len()));
            }
        }
        self.receive(received)
    }
}

/// A server's socket.
pub struct MugonServerSocket {
    local_addr: SocketAddr,
    sender: MugonServerSocketSender,
    receiver: MugonServerSocketReceiver,
}

impl MugonServerSocket {
    /// The end that packets go into.
    pub closed spec fn sender(&self) -> MugonServerSocketSender {
        self.sender
    }

    /// The end that packets come out of.
    pub closed spec fn receiver(&self) -> MugonServerSocketReceiver {
        self.receiver
    }

    /// The address that [`MugonServerSocket::local_addr`] returns.
    pub closed spec fn spec_local_addr(&self) -> SocketAddr {
        self.local_addr
    }

    /// The address of the server.
    pub fn local_addr(&self) -> (addr: SocketAddr)
        ensures
            addr == self.spec_local_addr(),
    {
        self.local_addr
    }

    /// The two ends of the socket.
    pub fn split(self) -> (ends: (MugonServerSocketSender, MugonServerSocketReceiver))
        ensures
            ends == (self.sender(), self.receiver()),
    {
        (self.sender, self.receiver)
    }
}

/// What is done when a packet comes in from a client.
pub struct OnNewMessage {
    serverbound_tx: Outbox<(SocketAddr, Message)>,
}

impl OnNewMessage {
    /// The queue from the clients.
    pub closed spec fn queue(&self) -> Link<(SocketAddr, Message)> {
        self.serverbound_tx.link()
    }

    /// What was put into the queue from the clients, oldest first.
    pub closed spec fn queued(&self) -> Seq<(SocketAddr, Message)> {
        self.serverbound_tx.log()
    }

    /// What the queue from the clients was asked to take, oldest first.
    pub closed spec fn attempted(&self) -> Seq<(SocketAddr, Message)> {
        self.serverbound_tx.attempts()
    }

    /// Whether what was queued is the first that the queue from the clients takes, in order.
    pub open spec fn in_order(&self) -> bool {
        follows(self.queued(), self.queue())
    }

    /// Puts the packet into the queue from the clients, under the address of the client. Fails
    /// if the socket is gone.
    pub fn call(&mut self, client_id: u64, data: Vec<u8>) -> (done: Result<(), Error>)
        ensures
            final(self).queue() == old(self).queue(),
            final(self).attempted() == old(self).attempted().push(
                (address_of(client_id), Message::Binary(data)),
            ),
            final(self).in_order(),
            match done {
                Ok(()) => final(self).queued() == old(self).queued().push(
                    (address_of(client_id), Message::Binary(data)),
                ),
                Err(error) => error == Error::Channel && final(self).queued() == old(self).queued(),
            },
    {
        let addr = id_to_socket_addr(client_id);
        accepted(self.serverbound_tx.send((addr, Message::Binary(data))))
    }
}

/// Where a server reports what happens to its transport.
pub struct ServerStatus {
    status_tx: SignalSender<ServerIoEvent>,
}

impl ServerStatus {
    /// The queue of reports.
    pub closed spec fn queue(&self) -> Sender<ServerIoEvent> {
        self.status_tx.link()
    }

    /// The events reported, oldest first.
    pub closed spec fn reported(&self) -> Seq<ServerIoEvent> {
        self.status_tx.log()
    }

    /// The events that were to be reported, oldest first.
    pub closed spec fn attempted(&self) -> Seq<ServerIoEvent> {
        self.status_tx.attempts()
    }

    /// Another handle for reports to the same listener.
    pub fn another(&self) -> (status: ServerStatus)
        ensures
            status.queue() == self.queue(),
            status.reported() == Seq::<ServerIoEvent>::empty(),
            status.attempted() == Seq::<ServerIoEvent>::empty(),
    {
        ServerStatus { status_tx: self.status_tx.another() }
    }

    /// Reports an event. Fails if nobody listens.
    fn report(&mut self, event: ServerIoEvent) -> (done: Result<(), Error>)
        ensures
            final(self).queue() == old(self).queue(),
            final(self).attempted() == old(self).attempted().push(event),
            match done {
                Ok(()) => final(self).reported() == old(self).reported().push(event),
                Err(error) => error == Error::Channel && final(self).reported() == old(
                    self,
                ).reported(),
            },
    {
        self.status_tx.notify(event)
    }

    /// Reports that the client with an id is gone. Fails if nobody listens.
    pub fn on_disconnected_from(&mut self, id: u64) -> (done: Result<(), Error>)
        ensures
            final(self).queue() == old(self).queue(),
            final(self).attempted() == old(self).attempted().push(
                ServerIoEvent::ClientDisconnected(address_of(id)),
            ),
            match done {
                Ok(()) => final(self).reported() == old(self).reported().push(
                    ServerIoEvent::ClientDisconnected(address_of(id)),
                ),
                Err(error) => error == Error::Channel && final(self).reported() == old(
                    self,
                ).reported(),
            },
    {
        self.report(ServerIoEvent::ClientDisconnected(id_to_socket_addr(id)))
    }
}

/// What a server's socket is made from.
pub struct MugonServerBuilder {
    /// The address of the server.
    pub server_addr: SocketAddr,
}

/// A server's socket with all that keeps it running.
pub struct ServerStart {
    /// The socket.
    pub socket: MugonServerSocket,
    /// The state that the transport starts in.
    pub state: IoState,
    /// Where the events of the transport come out.
    pub events: Option<SignalReceiver<ServerIoEvent>>,
    /// Where the rest of the library asks for the server to stop. This transport has none.
    pub close_tx: Option<SignalSender<ServerIoEvent>>,
    /// The id of the server.
    pub own_id: u64,
    /// Where what happens is reported.
    pub status: ServerStatus,
    /// To be called when a packet comes in from a client.
    pub on_new_message: OnNewMessage,
}

impl ServerStart {
    /// Whether this is a server at the given address that nothing has happened to yet, except
    /// for the reports given.
    pub open spec fn is_fresh(
        &self,
        server_addr: SocketAddr,
        reported: Seq<ServerIoEvent>,
    ) -> bool {
        &&& self.socket.receiver().queue() == self.on_new_message.queue()
        &&& self.events is Some
        &&& self.events->Some_0.link() == self.status.queue()
        &&& self.socket.spec_local_addr() == server_addr
        &&& self.socket.sender().wf()
        &&& self.socket.sender().spec_server_addr() == server_addr
        &&& self.socket.sender().clients() == Map::<SocketAddr, ClientQueue>::empty()
        &&& self.socket.receiver().spec_server_addr() == server_addr
        &&& self.socket.receiver().taken() == Seq::<(SocketAddr, Message)>::empty()
        &&& self.socket.receiver().looks() == Seq::<Look<(SocketAddr, Message)>>::empty()
        &&& self.socket.receiver().buffer() == Seq::new(MTU as nat, |i: int| 0u8)
        &&& self.state == IoState::Connecting
        &&& self.events->Some_0.log() == Seq::<ServerIoEvent>::empty()
        &&& self.events->Some_0.looks() == Seq::<Option<ServerIoEvent>>::empty()
        &&& self.close_tx is None
        &&& self.own_id == id_of(server_addr)
        &&& self.status.reported() == reported
        &&& self.status.attempted() == reported
        &&& self.on_new_message.queued() == Seq::<(SocketAddr, Message)>::empty()
        &&& self.on_new_message.attempted() == Seq::<(SocketAddr, Message)>::empty()
        &&& self.on_new_message.in_order()
        &&& self.socket.receiver().in_order()
    }
}

impl MugonServerBuilder {
    /// Makes a socket and the handlers of what happens to it, on the two ends of a queue of
    /// reports.
    fn assemble(
        self,
        status_tx: SignalSender<ServerIoEvent>,
        status_rx: SignalReceiver<ServerIoEvent>,
    ) -> (start: ServerStart)
        requires
            status_tx.link() == status_rx.link(),
            status_tx.attempts() == status_tx.log(),
            status_rx.log() == Seq::<ServerIoEvent>::empty(),
            status_rx.looks() == Seq::<Option<ServerIoEvent>>::empty(),
        ensures
            start.is_fresh(self.server_addr, status_tx.log()),
    {
        // queue between the handlers and the socket
        let (serverbound_tx, serverbound_rx) = queue::<(SocketAddr, Message)>();
        let sender = MugonServerSocketSender {
            server_addr: self.server_addr,
            addr_to_clientbound_tx: VecMap::new(),
        };
        let receiver = MugonServerSocketReceiver {
            buffer: PacketBuffer::new(),
            server_addr: self.server_addr,
            serverbound_rx,
        };
        assert(sender.clients() =~= Map::<SocketAddr, ClientQueue>::empty());
        ServerStart {
            socket: MugonServerSocket { local_addr: self.server_addr, sender, receiver },
            state: IoState::Connecting,
            events: Some(status_rx),
            close_tx: None,
            own_id: socket_addr_to_id(&self.server_addr),
            status: ServerStatus { status_tx },
            on_new_message: OnNewMessage { serverbound_tx },
        }
    }

    /// Makes a socket and the handlers of what happens to it, and reports that the server is up.
    /// The listener to reports is in place by then, so this does not fail.
    pub fn start(self) -> (start: Result<ServerStart, Error>)
        ensures
            start matches Ok(s) && s.is_fresh(
                self.server_addr,
                seq![ServerIoEvent::ServerConnected],
            ),
    {
        // where the transport reports what happens
        let mut status = signal::<ServerIoEvent>();
        accepted(status.try_send(ServerIoEvent::ServerConnected))?;
        let (status_tx, status_rx) = status.ends();
        assert(status_tx.log() =~= seq![ServerIoEvent::ServerConnected]);
        Ok(self.assemble(status_tx, status_rx))
    }
}

/// How far the service of a client is.
#[derive(Clone, Copy, Debug, PartialEq, Eq, Structural)]
pub enum SessionPhase {
    /// The client is served.
    Open,
    /// The client is not served any more, and its connection is still to be closed.
    Closed,
    /// The connection was closed for the last time.
    Ended,
}

/// What is found in the queue of a client.
#[derive(Debug, PartialEq, Eq)]
pub enum Outgoing {
    /// A message.
    Message(Message),
    /// Nothing for now.
    Nothing,
    /// Nothing, and nothing will come.
    HungUp,
}

/// What the task that serves a client does next.
#[derive(Debug, PartialEq, Eq)]
pub enum SessionAction {
    /// It lets others run.
    Wait,
    /// It sends a packet to the client.
    Send(Vec<u8>),
    /// It closes the connection.
    Close,
    /// It ends the session.
    Finish,
}

/// What the task that serves a client does in a phase, from what it found in the client's queue.
///
/// For whatever reason the client is not served any more, the connection is closed then, and the
/// session is ended after that.
pub open spec fn next_session(phase: SessionPhase, outgoing: Outgoing) -> (
    SessionPhase,
    SessionAction,
) {
    match phase {
        SessionPhase::Open => match outgoing {
            Outgoing::Message(Message::Binary(data)) => (
                SessionPhase::Open,
                SessionAction::Send(data),
            ),
            Outgoing::Message(Message::Close) => (SessionPhase::Closed, SessionAction::Close),
            Outgoing::Nothing => (SessionPhase::Open, SessionAction::Wait),
            Outgoing::HungUp => (SessionPhase::Ended, SessionAction::Close),
        },
        SessionPhase::Closed => (SessionPhase::Ended, SessionAction::Close),
        SessionPhase::Ended => (SessionPhase::Ended, SessionAction::Finish),
    }
}

/// Decides what the task that serves a client does; see [`next_session`].
pub fn decide_session(phase: SessionPhase, outgoing: Outgoing) -> (next: (
    SessionPhase,
    SessionAction,
))
    ensures
        next == next_session(phase, outgoing),
{
    match phase {
        SessionPhase::Open => match outgoing {
            Outgoing::Message(Message::Binary(data)) => (
                SessionPhase::Open,
                SessionAction::Send(data),
            ),
            Outgoing::Message(Message::Close) => (SessionPhase::Closed, SessionAction::Close),
            Outgoing::Nothing => (SessionPhase::Open, SessionAction::Wait),
            Outgoing::HungUp => (SessionPhase::Ended, SessionAction::Close),
        },
        SessionPhase::Closed => (SessionPhase::Ended, SessionAction::Close),
        SessionPhase::Ended => (SessionPhase::Ended, SessionAction::Finish),
    }
}

/// The connection to one client.
pub struct ClientSession {
    /// The queue of the client.
    pub clientbound_rx: Inbox<Message>,
    addr: SocketAddr,
    phase: SessionPhase,
}

impl ClientSession {
    /// The queue of the client.
    pub closed spec fn queue(&self) -> Link<Message> {
        self.clientbound_rx.link()
    }

    /// The address of the client.
    pub closed spec fn addr(&self) -> SocketAddr {
        self.addr
    }

    /// How far the service of the client is.
    pub closed spec fn phase(&self) -> SessionPhase {
        self.phase
    }

    /// The messages taken out of the client's queue, oldest first.
    pub closed spec fn taken(&self) -> Seq<Message> {
        self.clientbound_rx.log()
    }

    /// What each look into the client's queue has found, oldest first.
    pub closed spec fn looks(&self) -> Seq<Look<Message>> {
        self.clientbound_rx.looks()
    }

    /// Whether the client's queue was ever handed out.
    pub closed spec fn is_lent(&self) -> bool {
        self.clientbound_rx.is_lent()
    }

    /// Whether the messages taken are the first that the client's queue takes, in order, and
    /// nobody else takes any.
    pub open spec fn in_order(&self) -> bool {
        !self.is_lent() && follows(self.taken(), self.queue())
    }

    /// Begins to serve the client at an address: it gets a queue, which takes the place of one
    /// that it may have had.
    pub fn open(addr: SocketAddr, sender: &mut MugonServerSocketSender) -> (session: Self)
        requires
            old(sender).wf(),
        ensures
            final(sender).wf(),
            final(sender).spec_server_addr() == old(sender).spec_server_addr(),
            final(sender).clients() == with_client(old(sender).clients(), addr, session.queue()),
            session.addr() == addr,
            session.phase() == SessionPhase::Open,
            session.taken() == Seq::<Message>::empty(),
            session.looks() == Seq::<Look<Message>>::empty(),
            session.in_order(),
    {
        let (clientbound_tx, clientbound_rx) = queue::<Message>();
        sender.addr_to_clientbound_tx.insert(addr, clientbound_tx);
        proof {
            assert(client_queue(clientbound_tx).log =~= Seq::<MessageView>::empty());
            assert(client_queue(clientbound_tx).attempts =~= Seq::<MessageView>::empty());
            assert(sender.clients() =~= with_client(
                old(sender).clients(),
                addr,
                clientbound_rx.link(),
            ));
        }
        ClientSession { clientbound_rx, addr, phase: SessionPhase::Open }
    }

    /// The id of the client, where the packets go.
    pub fn client_id(&self) -> (id: u64)
        ensures
            id == id_of(self.addr()),
    {
        socket_addr_to_id(&self.addr)
    }

    /// Whether the client is still served.
    pub fn is_open(&self) -> (open: bool)
        ensures
            open == (self.phase() == SessionPhase::Open),
    {
        self.phase == SessionPhase::Open
    }

    /// Looks into the client's queue, if the client is still served, and decides what to do next.
    /// A queue that is gone is like an empty one.
    pub fn poll(&mut self) -> (action: SessionAction)
        ensures
            final(self).queue() == old(self).queue(),
            final(self).addr() == old(self).addr(),
            old(self).in_order() ==> final(self).in_order(),
            extends(old(self).looks(), final(self).looks()),
            added(old(self).looks(), final(self).looks()) is Some <==> old(self).phase()
                == SessionPhase::Open,
            final(self).taken() == extended(
                old(self).taken(),
                taken_at(added(old(self).looks(), final(self).looks())),
            ),
            (final(self).phase(), action) == next_session(
                old(self).phase(),
                match added(old(self).looks(), final(self).looks()) {
                    Some(Ok(message)) => Outgoing::Message(message),
                    _ => Outgoing::Nothing,
                },
            ),
    {
        let mut outgoing = Outgoing::Nothing;
        if self.phase == SessionPhase::Open {
            if let Ok(message) = self.clientbound_rx.try_recv() {
                outgoing = Outgoing::Message(message);
            }
        }
        let (phase, action) = decide_session(self.phase, outgoing);
        self.phase = phase;
        action
    }

    /// Decides what to do next, from what came out of the client's queue; nothing comes out of a
    /// queue that is gone.
    pub fn on_message(&mut self, message: Option<Message>) -> (action: SessionAction)
        ensures
            final(self).queue() == old(self).queue(),
            final(self).addr() == old(self).addr(),
            final(self).taken() == old(self).taken(),
            final(self).looks() == old(self).looks(),
            final(self).is_lent() == old(self).is_lent(),
            (final(self).phase(), action) == next_session(
                old(self).phase(),
                match message {
                    Some(m) => Outgoing::Message(m),
                    None => Outgoing::HungUp,
                },
            ),
    {
        let outgoing = match message {
            Some(m) => Outgoing::Message(m),
            None => Outgoing::HungUp,
        };
        let (phase, action) = decide_session(self.phase, outgoing);
        self.phase = phase;
        action
    }

    /// Takes note of whether a packet could be handed over. If not, the client is not served any
    /// more.
    pub fn on_sent(&mut self, delivered: bool)
        ensures
            final(self).queue() == old(self).queue(),
            final(self).addr() == old(self).addr(),
            final(self).taken() == old(self).taken(),
            final(self).looks() == old(self).looks(),
            final(self).is_lent() == old(self).is_lent(),
            final(self).phase() == (if !delivered && old(self).phase() == SessionPhase::Open {
                SessionPhase::Closed
            } else {
                old(self).phase()
            }),
    {
        if !delivered && self.phase == SessionPhase::Open {
            self.phase = SessionPhase::Closed;
        }
    }

    /// Ends the session: the client loses its queue, and that it is gone is reported. Fails if
    /// nobody listens to reports.
    pub fn finish(self, sender: &mut MugonServerSocketSender, status: &mut ServerStatus) -> (done:
        Result<(), Error>)
        requires
            old(sender).wf(),
        ensures
            final(sender).wf(),
            final(sender).spec_server_addr() == old(sender).spec_server_addr(),
            final(sender).clients() == old(sender).clients().remove(self.addr()),
            final(status).queue() == old(status).queue(),
            final(status).attempted() == old(status).attempted().push(
                ServerIoEvent::ClientDisconnected(self.addr()),
            ),
            match done {
                Ok(()) => final(status).reported() == old(status).reported().push(
                    ServerIoEvent::ClientDisconnected(self.addr()),
                ),
                Err(error) => error == Error::Channel && final(status).reported() == old(
                    status,
                ).reported(),
            },
    {
        sender.addr_to_clientbound_tx.remove(&self.addr);
        assert(sender.clients() =~= old(sender).clients().remove(self.addr()));
        status.report(ServerIoEvent::ClientDisconnected(self.addr))
    }
}

/// A packet for one client leaves the queues of all other clients as they are, and adds itself
/// at the end of that client's queue, if the queue takes it.
pub proof fn law_a_packet_goes_into_one_queue(
    clients: ClientQueues,
    address: SocketAddr,
    packet: Seq<u8>,
    taken: bool,
    other: SocketAddr,
)
    requires
        clients.contains_key(address),
        other != address,
    ensures
        ({
            let after = with_packet(clients, address, packet, taken);
            &&& after.dom() == clients.dom()
            &&& after[other] == clients[other]
            &&& after[address].queue == clients[address].queue
            &&& !taken ==> after[address].log == clients[address].log
            &&& taken ==> after[address].log.last() == MessageView::Binary(packet)
            &&& taken ==> after[address].log.drop_last() == clients[address].log
        }),
{
    let after = with_packet(clients, address, packet, taken);
    assert(after.dom() =~= clients.dom());
    assert(taken ==> after[address].log.drop_last() =~= clients[address].log);
}

/// Packets come out of a client's queue as they went in: the message that the session has taken
/// after some others is the one that the queue was given after as many.
pub proof fn law_packets_reach_the_session_as_they_were_sent(
    client: ClientQueue,
    session: ClientSession,
    i: int,
)
    requires
        client.queue == session.queue(),
        client.in_order(),
        session.in_order(),
        0 <= i < client.log.len(),
        0 <= i < session.taken().len(),
    ensures
        session.taken()[i]@ == client.log[i],
{
}

/// Packets come out of a server's socket as they came in from the clients, each with the address
/// of its client.
pub proof fn law_packets_reach_the_server_as_they_came_in(
    handler: OnNewMessage,
    receiver: MugonServerSocketReceiver,
    i: int,
)
    requires
        handler.queue() == receiver.queue(),
        handler.in_order(),
        receiver.in_order(),
        0 <= i < handler.queued().len(),
        0 <= i < receiver.taken().len(),
    ensures
        receiver.taken()[i] == handler.queued()[i],
{
    law_values_come_out_as_they_went_in(handler.queued(), receiver.taken(), receiver.queue());
}

/// The queues after packets were, one after the other, for the given clients; each comes with
/// whether the queue took it.
pub open spec fn with_packets(
    clients: ClientQueues,
    packets: Seq<(SocketAddr, Seq<u8>, bool)>,
) -> ClientQueues
    decreases packets.len(),
{
    if packets.len() == 0 {
        clients
    } else {
        let (address, packet, taken) = packets.last();
        with_packet(with_packets(clients, packets.drop_last()), address, packet, taken)
    }
}

/// A session leaves nothing behind: whatever was sent to its client while it lasted, once it has
/// ended there is no queue for that client, as before it began.
pub proof fn law_a_session_leaves_nothing_behind(
    clients: ClientQueues,
    addr: SocketAddr,
    queue: Link<Message>,
    packets: Seq<(SocketAddr, Seq<u8>, bool)>,
)
    requires
        forall|i: int| 0 <= i < packets.len() ==> (#[trigger] packets[i]).0 == addr,
    ensures
        with_packets(with_client(clients, addr, queue), packets).remove(addr) == clients.remove(
            addr,
        ),
        !clients.contains_key(addr) ==> with_packets(
            with_client(clients, addr, queue),
            packets,
        ).remove(addr) == clients,
    decreases packets.len(),
{
    let opened = with_client(clients, addr, queue);
    if packets.len() > 0 {
        let earlier = packets.drop_last();
        assert(forall|i: int| 0 <= i < earlier.len() ==> #[trigger] earlier[i] == packets[i]);
        law_a_session_leaves_nothing_behind(clients, addr, queue, earlier);
        assert(packets[packets.len() - 1].0 == addr);
        assert(with_packets(opened, packets).remove(addr) =~= with_packets(opened, earlier).remove(
            addr,
        ));
    } else {
        assert(opened.remove(addr) =~= clients.remove(addr));
    }
    if !clients.contains_key(addr) {
        assert(clients.remove(addr) =~= clients);
    }
}

/// One step of a session: what was found in the client's queue, and, if that was a packet,
/// whether it could be handed over.
pub struct SessionStep {
    /// What was found.
    pub outgoing: Outgoing,
    /// Whether a packet could be handed over.
    pub delivered: bool,
}

/// The phase of a session after a step.
pub open spec fn phase_after_step(phase: SessionPhase, step: SessionStep) -> SessionPhase {
    let (next, action) = next_session(phase, step.outgoing);
    if action is Send && !step.delivered {
        SessionPhase::Closed
    } else {
        next
    }
}

/// The phase of a session after some steps.
pub open spec fn session_phase(steps: Seq<SessionStep>) -> SessionPhase
    decreases steps.len(),
{
    if steps.len() == 0 {
        SessionPhase::Open
    } else {
        phase_after_step(session_phase(steps.drop_last()), steps.last())
    }
}

/// The packets that a session has tried to hand over in some steps, oldest first.
pub open spec fn session_sent(steps: Seq<SessionStep>) -> Seq<Vec<u8>>
    decreases steps.len(),
{
    if steps.len() == 0 {
        Seq::empty()
    } else {
        let earlier = session_sent(steps.drop_last());
        match next_session(session_phase(steps.drop_last()), steps.last().outgoing).1 {
            SessionAction::Send(data) => earlier.push(data),
            _ => earlier,
        }
    }
}

/// The packets among what was found in a client's queue, oldest first.
pub open spec fn packets_found(steps: Seq<SessionStep>) -> Seq<Vec<u8>>
    decreases steps.len(),
{
    if steps.len() == 0 {
        Seq::empty()
    } else {
        let earlier = packets_found(steps.drop_last());
        match steps.last().outgoing {
            Outgoing::Message(Message::Binary(data)) => earlier.push(data),
            _ => earlier,
        }
    }
}

/// Whether a step ends the service of a client: the message that says so, a queue that is gone,
/// or a packet that could not be handed over.
pub open spec fn closes(step: SessionStep) -> bool {
    match step.outgoing {
        Outgoing::Message(Message::Binary(_)) => !step.delivered,
        Outgoing::Message(Message::Close) => true,
        Outgoing::Nothing => false,
        Outgoing::HungUp => true,
    }
}

/// A client is not served any more exactly when a step has seen to that.
pub proof fn law_a_session_closes_for_a_reason(steps: Seq<SessionStep>)
    ensures
        session_phase(steps) != SessionPhase::Open <==> exists|i: int|
            0 <= i < steps.len() && closes(#[trigger] steps[i]),
    decreases steps.len(),
{
    if steps.len() > 0 {
        let earlier = steps.drop_last();
        law_a_session_closes_for_a_reason(earlier);
        if session_phase(steps) != SessionPhase::Open {
            if session_phase(earlier) != SessionPhase::Open {
                let i = choose|i: int| 0 <= i < earlier.len() && closes(#[trigger] earlier[i]);
                assert(closes(steps[i]));
            } else {
                assert(closes(steps[steps.len() - 1]));
            }
        }
        if exists|i: int| 0 <= i < steps.len() && closes(#[trigger] steps[i]) {
            let i = choose|i: int| 0 <= i < steps.len() && closes(#[trigger] steps[i]);
            if i < earlier.len() {
                assert(closes(earlier[i]));
            }
        }
    }
}

/// Until a step closes the session, every packet found in the client's queue is sent, in order
/// and once.
pub proof fn law_packets_are_sent_in_order(steps: Seq<SessionStep>)
    requires
        forall|i: int| 0 <= i < steps.len() - 1 ==> !closes(#[trigger] steps[i]),
    ensures
        session_sent(steps) == packets_found(steps),
    decreases steps.len(),
{
    if steps.len() > 0 {
        let earlier = steps.drop_last();
        assert(forall|i: int| 0 <= i < earlier.len() ==> !closes(#[trigger] earlier[i])) by {
            assert forall|i: int| 0 <= i < earlier.len() implies !closes(#[trigger] earlier[i]) by {
                assert(earlier[i] == steps[i]);
            }
        }
        law_packets_are_sent_in_order(earlier);
        law_a_session_closes_for_a_reason(earlier);
    }
}

/// Once a client is not served any more it stays so, and nothing is sent to it.
pub proof fn law_nothing_is_sent_after_the_close(steps: Seq<SessionStep>, more: Seq<SessionStep>)
    requires
        session_phase(steps) != SessionPhase::Open,
    ensures
        session_phase(steps + more) != SessionPhase::Open,
        session_sent(steps + more) == session_sent(steps),
    decreases more.len(),
{
    if more.len() == 0 {
        assert(steps + more =~= steps);
    } else {
        law_nothing_is_sent_after_the_close(steps, more.drop_last());
        assert((steps + more).drop_last() =~= steps + more.drop_last());
    }
}

/// What a session brings about outside.
pub enum SessionEffect {
    /// A packet is sent to the peer with an id.
    Send(u64, Vec<u8>),
    /// The connection to the peer with an id is closed.
    Close(u64),
    /// An event is reported.
    Report(ServerIoEvent),
}

/// What comes of what the task that serves the client at an address does: packets and closes go
/// to the id that [`ClientSession::client_id`] tells, and the end of the session is reported, as
/// [`ClientSession::finish`] does.
pub open spec fn effect_of(addr: SocketAddr, action: SessionAction) -> Option<SessionEffect> {
    match action {
        SessionAction::Wait => None,
        SessionAction::Send(data) => Some(SessionEffect::Send(id_of(addr), data)),
        SessionAction::Close => Some(SessionEffect::Close(id_of(addr))),
        SessionAction::Finish => Some(
            SessionEffect::Report(ServerIoEvent::ClientDisconnected(addr)),
        ),
    }
}

/// What the task that serves a client does at the last of some steps.
pub open spec fn last_action(steps: Seq<SessionStep>) -> SessionAction
    recommends
        steps.len() > 0,
{
    next_session(session_phase(steps.drop_last()), steps.last().outgoing).1
}

/// What the session of the client at an address brings about in some steps, oldest first.
pub open spec fn session_effects(addr: SocketAddr, steps: Seq<SessionStep>) -> Seq<SessionEffect>
    decreases steps.len(),
{
    if steps.len() == 0 {
        Seq::empty()
    } else {
        extended(
            session_effects(addr, steps.drop_last()),
            effect_of(addr, last_action(steps)),
        )
    }
}

/// Whether a session has not ended in some steps.
pub open spec fn is_unfinished(steps: Seq<SessionStep>) -> bool
    decreases steps.len(),
{
    steps.len() == 0 || (is_unfinished(steps.drop_last()) && last_action(steps) !is Finish)
}

/// However a session comes to its end, the last that it brings about is one report that its
/// client is gone; right before that, and so after the last packet, the connection to the client
/// is closed; and nothing is ever sent to, or closed for, another peer.
pub proof fn law_a_session_ends_with_a_close_and_one_report(
    addr: SocketAddr,
    steps: Seq<SessionStep>,
)
    requires
        steps.len() > 0,
        is_unfinished(steps.drop_last()),
        last_action(steps) is Finish,
    ensures
        ({
            let effects = session_effects(addr, steps);
            let end = effects.len() - 1;
            &&& end >= 1
            &&& effects[end] == SessionEffect::Report(ServerIoEvent::ClientDisconnected(addr))
            &&& effects[end - 1] == SessionEffect::Close(id_of(addr))
            &&& forall|i: int|
                0 <= i < end ==> match #[trigger] effects[i] {
                    SessionEffect::Send(id, _) => id == id_of(addr),
                    SessionEffect::Close(id) => id == id_of(addr),
                    SessionEffect::Report(_) => false,
                }
        }),
{
    law_nothing_is_reported_before_the_end(addr, steps.drop_last());
}

/// A session whose client is not served any more comes to its end by itself, whatever is in the
/// client's queue: the connection is closed at the next step, if it was not yet, and the session
/// is ended at the step after that.
pub proof fn law_a_closed_session_ends(
    steps: Seq<SessionStep>,
    next: SessionStep,
    after: SessionStep,
)
    ensures
        session_phase(steps) == SessionPhase::Closed ==> last_action(steps.push(next)) is Close
            && last_action(steps.push(next).push(after)) is Finish,
        session_phase(steps) == SessionPhase::Ended ==> last_action(steps.push(next)) is Finish,
{
    assert(steps.push(next).drop_last() =~= steps);
    assert(steps.push(next).push(after).drop_last() =~= steps.push(next));
}

/// Until a session ends nothing is reported, all that it brings about goes to its client, and it
/// comes to the last phase by closing the connection.
pub proof fn law_nothing_is_reported_before_the_end(addr: SocketAddr, steps: Seq<SessionStep>)
    requires
        is_unfinished(steps),
    ensures
        ({
            let effects = session_effects(addr, steps);
            &&& forall|i: int|
                0 <= i < effects.len() ==> match #[trigger] effects[i] {
                    SessionEffect::Send(id, _) => id == id_of(addr),
                    SessionEffect::Close(id) => id == id_of(addr),
                    SessionEffect::Report(_) => false,
                }
            &&& session_phase(steps) == SessionPhase::Ended ==> effects.len() > 0 && effects.last()
                == SessionEffect::Close(id_of(addr))
        }),
    decreases steps.len(),
{
    if steps.len() > 0 {
        law_nothing_is_reported_before_the_end(addr, steps.drop_last());
    }
}

}
