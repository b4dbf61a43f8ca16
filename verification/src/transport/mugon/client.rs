//! The client's side.
use async_channel::Sender;
use vstd::prelude::*;
use crate::transport::address::{local_socket, spec_local_socket, SocketAddr};
use crate::transport::error::{accepted, io_error, Error};
use crate::transport::event::{ClientIoEvent, IoState};
use crate::transport::mugon::common::{id_of, socket_addr_to_id, Message};
use crate::transport::packet::{copy_of, PacketBuffer, MTU};
use crate::transport::queue::{
    added, extended, extends, follows, law_values_come_out_as_they_went_in, queue, taken_at, Inbox,
    Link, Look, NotReceived, Outbox, Refused,
};
use crate::transport::signal::{heard_at, signal, SignalReceiver, SignalSender};

verus! {

/// What it means whether the queue to the server took a packet.
pub fn serverbound_result(outcome: Result<(), Refused<Vec<u8>>>) -> (sent: Result<(), Error>)
    ensures
        match outcome {
            Ok(()) => sent is Ok,
            Err(refused) => sent matches Err(error) && error.is_io(
                "unable to send message to server: "@ + refused.debug@,
            ),
        },
{
    match outcome {
        Ok(()) => Ok(()),
        Err(refused) => Err(
            io_error("unable to send message to server: ", refused.debug.as_str()),
        ),
    }
}

/// The end of a socket that packets to the server go into.
pub struct MugonClientSocketSender {
    serverbound_tx: Outbox<Vec<u8>>,
}

impl MugonClientSocketSender {
    /// The queue to the server.
    pub closed spec fn queue(&self) -> Link<Vec<u8>> {
        self.serverbound_tx.link()
    }

    /// The packets that the queue to the server has taken, oldest first.
    pub closed spec fn sent(&self) -> Seq<Seq<u8>> {
        self.serverbound_tx.log().map_values(|packet: Vec<u8>| packet@)
    }

    /// The packets that the queue to the server was asked to take, oldest first.
    pub closed spec fn attempted(&self) -> Seq<Seq<u8>> {
        self.serverbound_tx.attempts().map_values(|packet: Vec<u8>| packet@)
    }

    /// Whether the packets sent are the first that the queue to the server takes, in order.
    pub open spec fn in_order(&self) -> bool {
        forall|i: int|
            0 <= i < self.sent().len() ==> #[trigger] self.sent()[i] == (self.queue().stream)(i)@
    }

    /// Puts a packet into the queue to the server. There is one server only, so the address does
    /// not matter.
    pub fn send(&mut self, payload: &[u8], address: &SocketAddr) -> (sent: Result<(), Error>)
        ensures
            final(self).queue() == old(self).queue(),
            final(self).attempted() == old(self).attempted().push(payload@),
            final(self).in_order(),
            match sent {
                Ok(()) => final(self).sent() == old(self).sent().push(payload@),
                Err(error) => final(self).sent() == old(self).sent() && error.is_io(
                    "unable to send message to server: "@ + "SendError { .. }"@,
                ),
            },
    {
        let outcome = self.serverbound_tx.send(copy_of(payload));
        assert(outcome is Ok ==> self.sent() =~= old(self).sent().push(payload@));
        assert(self.attempted() =~= old(self).attempted().push(payload@));
        serverbound_result(outcome)
    }
}

/// The end of a socket that packets from the server come out of.
pub struct MugonClientSocketReceiver {
    buffer: PacketBuffer,
    server_addr: SocketAddr,
    clientbound_rx: Inbox<Message>,
}

impl MugonClientSocketReceiver {
    /// The queue from the server.
    pub closed spec fn queue(&self) -> Link<Message> {
        self.clientbound_rx.link()
    }

    /// The address of the server.
    pub closed spec fn server_addr(&self) -> SocketAddr {
        self.server_addr
    }

    /// The bytes of the buffer.
    pub closed spec fn buffer(&self) -> Seq<u8> {
        self.buffer@
    }

    /// The messages that were taken out of the queue from the server, oldest first.
    pub closed spec fn taken(&self) -> Seq<Message> {
        self.clientbound_rx.log()
    }

    /// What each look into the queue from the server has found, oldest first.
    pub closed spec fn looks(&self) -> Seq<Look<Message>> {
        self.clientbound_rx.looks()
    }

    /// Whether the queue from the server was ever handed out.
    pub closed spec fn is_lent(&self) -> bool {
        self.clientbound_rx.is_lent()
    }

    /// Whether the messages taken are the first that the queue from the server takes, in order,
    /// and nobody else takes any.
    pub open spec fn in_order(&self) -> bool {
        !self.is_lent() && follows(self.taken(), self.queue())
    }

    /// What a result of the queue from the server means: a packet is put into the buffer and
    /// handed out with the server's address; the end of the connection, and a queue in which
    /// there is nothing, are nothing; and a queue that is gone is an error.
    pub fn receive(&mut self, received: Result<Message, NotReceived>) -> (packet: Result<
        Option<(&mut [u8], SocketAddr)>,
        Error,
    >)
        requires
            received matches Ok(Message::Binary(data)) ==> data@.len() <= MTU,
        ensures
            final(self).queue() == old(self).queue(),
            final(self).server_addr() == old(self).server_addr(),
            final(self).taken() == old(self).taken(),
            final(self).looks() == old(self).looks(),
            final(self).is_lent() == old(self).is_lent(),
            match received {
                Ok(Message::Binary(data)) => match packet {
                    Ok(Some((bytes, addr))) => {
                        &&& bytes@ == data@
                        &&& addr == old(self).server_addr()
                        &&& final(self).buffer() == final(bytes)@ + old(self).buffer().skip(
                            data@.len() as int,
                        )
                    },
                    _ => false,
                },
                Ok(Message::Close) | Err(NotReceived::Empty) => packet matches Ok(None)
                    && final(self).buffer() == old(self).buffer(),
                Err(NotReceived::Disconnected(reason)) => packet matches Err(error)
                    && error.is_io("unable to receive message from client: "@ + reason@)
                    && final(self).buffer() == old(self).buffer(),
            },
    {
        match received {
            Ok(Message::Binary(data)) => {
                let addr = self.server_addr;
                Ok(Some((self.buffer.load(&data), addr)))
            },
            Ok(Message::Close) => Ok(None),
            Err(NotReceived::Empty) => Ok(None),
            Err(NotReceived::Disconnected(reason)) => Err(
                io_error("unable to receive message from client: ", reason.as_str()),
            ),
        }
    }

    /// The next packet from the server, if there is one: looks into the queue once, and what is
    /// found there decides; see [`MugonClientSocketReceiver::receive`]. A packet that is too long
    /// for the buffer is reported by its length.
    pub fn recv(&mut self) -> (packet: Result<Option<(&mut [u8], SocketAddr)>, Error>)
        ensures
            final(self).queue() == old(self).queue(),
            final(self).server_addr() == old(self).server_addr(),
            old(self).in_order() ==> final(self).in_order(),
            extends(old(self).looks(), final(self).looks()),
            final(self).taken() == extended(
                old(self).taken(),
                match added(old(self).looks(), final(self).looks()) {
                    Some(Ok(message)) => Some(message),
                    _ => None,
                },
            ),
            match added(old(self).looks(), final(self).looks()) {
                Some(Ok(Message::Binary(data))) => if data@.len() <= MTU {
                    match packet {
                        Ok(Some((bytes, addr))) => {
                            &&& bytes@ == data@
                            &&& addr == old(self).server_addr()
                            &&& final(self).buffer() == final(bytes)@ + old(self).buffer().skip(
                                data@.len() as int,
                            )
                        },
                        _ => false,
                    }
                } else {
                    &&& packet matches Err(Error::PacketTooLong(len)) && len == data@.len()
                    &&& final(self).buffer() == old(self).buffer()
                },
                Some(Ok(Message::Close)) | Some(Err(NotReceived::Empty)) => packet matches Ok(None)
                    && final(self).buffer() == old(self).buffer(),
                Some(Err(NotReceived::Disconnected(reason))) => {
                    &&& reason@ == "receiving on a closed channel"@
                    &&& packet matches Err(error) && error.is_io(
                        "unable to receive message from client: "@ + reason@,
                    )
                    &&& final(self).buffer() == old(self).buffer()
                },
                None => false,
            },
    {
        let received = self.clientbound_rx.try_recv();
        if let Ok(Message::Binary(data)) = &received {
            if data.len() > MTU {
                return Err(Error::PacketTooLong(data.len()));
            }
        }
        self.receive(received)
    }
}

/// A client's socket.
pub struct MugonClientSocket {
    sender: MugonClientSocketSender,
    receiver: MugonClientSocketReceiver,
}

impl MugonClientSocket {
    /// The end that packets go into.
    pub closed spec fn sender(&self) -> MugonClientSocketSender {
        self.sender
    }

    /// The end that packets come out of.
    pub closed spec fn receiver(&self) -> MugonClientSocketReceiver {
        self.receiver
    }

    /// The local address. A browser has none.
    pub fn local_addr(&self) -> (addr: SocketAddr)
        ensures
            addr == spec_local_socket(),
    {
        local_socket()
    }

    /// The two ends of the socket.
    pub fn split(self) -> (ends: (MugonClientSocketSender, MugonClientSocketReceiver))
        ensures
            ends == (self.sender(), self.receiver()),
    {
        (self.sender, self.receiver)
    }
}

/// What is done when the connection attempt has ended.
pub struct OnNewConnection {
    status_tx: SignalSender<ClientIoEvent>,
    connected_tx: SignalSender<bool>,
}

/// The event that reports how a connection attempt has ended.
pub open spec fn connection_event(success: bool) -> ClientIoEvent {
    if success {
        ClientIoEvent::Connected
    } else {
        ClientIoEvent::Disconnected(Error::NotConnected)
    }
}

impl OnNewConnection {
    /// The queue of reports.
    pub closed spec fn status_queue(&self) -> Sender<ClientIoEvent> {
        self.status_tx.link()
    }

    /// The queue to the task that sends packets.
    pub closed spec fn connected_queue(&self) -> Sender<bool> {
        self.connected_tx.link()
    }

    /// The events reported, oldest first.
    pub closed spec fn reported(&self) -> Seq<ClientIoEvent> {
        self.status_tx.log()
    }

    /// What the task that sends packets was told, oldest first.
    pub closed spec fn signalled(&self) -> Seq<bool> {
        self.connected_tx.log()
    }

    /// The events that were to be reported, oldest first.
    pub closed spec fn report_attempts(&self) -> Seq<ClientIoEvent> {
        self.status_tx.attempts()
    }

    /// What the task that sends packets was to be told, oldest first.
    pub closed spec fn signal_attempts(&self) -> Seq<bool> {
        self.connected_tx.attempts()
    }

    /// Reports how the connection attempt has ended, and then tells the task that sends packets.
    /// Fails at the first queue whose other end is gone.
    pub fn call(&mut self, success: bool) -> (done: Result<(), Error>)
        ensures
            final(self).status_queue() == old(self).status_queue(),
            final(self).connected_queue() == old(self).connected_queue(),
            final(self).report_attempts() == old(self).report_attempts().push(
                connection_event(success),
            ),
            extends(old(self).reported(), final(self).reported()),
            match added(old(self).reported(), final(self).reported()) {
                Some(event) => {
                    &&& event == connection_event(success)
                    &&& final(self).signal_attempts() == old(self).signal_attempts().push(success)
                },
                None => {
                    &&& done is Err
                    &&& final(self).signal_attempts() == old(self).signal_attempts()
                },
            },
            match done {
                Ok(()) => final(self).signalled() == old(self).signalled().push(success),
                Err(error) => error == Error::Channel && final(self).signalled() == old(
                    self,
                ).signalled(),
            },
    {
        let event = if success {
            ClientIoEvent::Connected
        } else {
            ClientIoEvent::Disconnected(Error::NotConnected)
        };
        self.status_tx.notify(event)?;
        self.connected_tx.notify(success)
    }
}

/// What is done when something comes in from the server.
pub struct OnNewMessage {
    from_server_tx: Outbox<Message>,
}

/// The message that stands for what came in: bytes are a packet, and nothing is the end of the
/// connection.
pub open spec fn incoming_message(data: Option<Vec<u8>>) -> Message {
    match data {
        Some(bytes) => Message::Binary(bytes),
        None => Message::Close,
    }
}

impl OnNewMessage {
    /// The queue from the server.
    pub closed spec fn queue(&self) -> Link<Message> {
        self.from_server_tx.link()
    }

    /// The messages put into the queue from the server, oldest first.
    pub closed spec fn queued(&self) -> Seq<Message> {
        self.from_server_tx.log()
    }

    /// The messages that the queue from the server was asked to take, oldest first.
    pub closed spec fn attempted(&self) -> Seq<Message> {
        self.from_server_tx.attempts()
    }

    /// Whether the messages queued are the first that the queue from the server takes, in order.
    pub open spec fn in_order(&self) -> bool {
        follows(self.queued(), self.queue())
    }

    /// Puts what came in into the queue from the server. Fails if the socket is gone.
    pub fn call(&mut self, sender_id: u64, data: Option<Vec<u8>>) -> (done: Result<(), Error>)
        ensures
            final(self).queue() == old(self).queue(),
            final(self).attempted() == old(self).attempted().push(incoming_message(data)),
            final(self).in_order(),
            match done {
                Ok(()) => final(self).queued() == old(self).queued().push(incoming_message(data)),
                Err(error) => error == Error::Channel && final(self).queued() == old(self).queued(),
            },
    {
        let message = match data {
            Some(bytes) => Message::Binary(bytes),
            None => Message::Close,
        };
        accepted(self.from_server_tx.send(message))
    }
}

/// What is done when the server is gone.
pub struct OnDisconnected {
    status_tx: SignalSender<ClientIoEvent>,
}

impl OnDisconnected {
    /// The queue of reports.
    pub closed spec fn status_queue(&self) -> Sender<ClientIoEvent> {
        self.status_tx.link()
    }

    /// The events reported, oldest first.
    pub closed spec fn reported(&self) -> Seq<ClientIoEvent> {
        self.status_tx.log()
    }

    /// The events that were to be reported, oldest first.
    pub closed spec fn report_attempts(&self) -> Seq<ClientIoEvent> {
        self.status_tx.attempts()
    }

    /// Reports that the server is gone. Fails if nobody listens.
    pub fn call(&mut self, id: u64) -> (done: Result<(), Error>)
        ensures
            final(self).status_queue() == old(self).status_queue(),
            final(self).report_attempts() == old(self).report_attempts().push(
                ClientIoEvent::Disconnected(Error::UserRequest),
            ),
            match done {
                Ok(()) => final(self).reported() == old(self).reported().push(
                    ClientIoEvent::Disconnected(Error::UserRequest),
                ),
                Err(error) => error == Error::Channel && final(self).reported() == old(
                    self,
                ).reported(),
            },
    {
        self.status_tx.notify(ClientIoEvent::Disconnected(Error::UserRequest))
    }
}

/// How far the task that sends packets is.
#[derive(Clone, Copy, Debug, PartialEq, Eq, Structural)]
pub enum SendPhase {
    /// It waits for the connection.
    Connecting,
    /// It sends what it finds in the queue to the server.
    Streaming,
    /// It is over.
    Stopped,
}

/// What the task that sends packets does next.
#[derive(Debug, PartialEq, Eq)]
pub enum SendAction {
    /// It lets others run.
    Wait,
    /// It sends a packet to the server.
    Send(Vec<u8>),
    /// It returns.
    Stop,
}

/// Whether an event from the rest of the library ends the task that sends packets.
pub open spec fn ends_task(event: Option<ClientIoEvent>) -> bool {
    event matches Some(ClientIoEvent::Disconnected(_))
}

/// What the task that sends packets does in a phase, from what it found in its queues: an event
/// from the rest of the library, word of the connection, and a packet for the server.
///
/// Before it is connected, an event that ends it goes before word of the connection. When it is
/// connected, a packet goes before such an event.
pub open spec fn next_send(
    phase: SendPhase,
    close: Option<ClientIoEvent>,
    connected: Option<bool>,
    packet: Option<Vec<u8>>,
) -> (SendPhase, SendAction) {
    match phase {
        SendPhase::Connecting => if ends_task(close) {
            (SendPhase::Stopped, SendAction::Stop)
        } else {
            match connected {
                Some(true) => (SendPhase::Streaming, SendAction::Wait),
                Some(false) => (SendPhase::Stopped, SendAction::Stop),
                None => (SendPhase::Connecting, SendAction::Wait),
            }
        },
        SendPhase::Streaming => match packet {
            Some(bytes) => (SendPhase::Streaming, SendAction::Send(bytes)),
            None => if ends_task(close) {
                (SendPhase::Stopped, SendAction::Stop)
            } else {
                (SendPhase::Streaming, SendAction::Wait)
            },
        },
        SendPhase::Stopped => (SendPhase::Stopped, SendAction::Stop),
    }
}

/// Whether the task that sends packets, in a phase, looks into a queue exactly when what is in it
/// matters. What it found is given for each queue; `None` stands for no look.
///
/// Before it is connected, it looks for an event that ends it, and, unless it has found one, for
/// word of the connection. When it is connected, it looks for a packet, and, unless it has found
/// one, for an event that ends it.
pub open spec fn looks_where_it_matters(
    phase: SendPhase,
    close: Option<Option<ClientIoEvent>>,
    connected: Option<Option<bool>>,
    packet: Option<Look<Vec<u8>>>,
) -> bool {
    match phase {
        SendPhase::Connecting => {
            &&& packet is None
            &&& close is Some
            &&& connected is Some <==> !ends_task(close->Some_0)
        },
        SendPhase::Streaming => {
            &&& packet is Some
            &&& connected is None
            &&& close is Some <==> packet->Some_0 is Err
        },
        SendPhase::Stopped => packet is None && connected is None && close is None,
    }
}

/// Decides what the task that sends packets does; see [`next_send`].
pub fn decide_send(
    phase: SendPhase,
    close: Option<ClientIoEvent>,
    connected: Option<bool>,
    packet: Option<Vec<u8>>,
) -> (next: (SendPhase, SendAction))
    ensures
        next == next_send(phase, close, connected, packet),
{
    let ends = match close {
        Some(ClientIoEvent::Disconnected(_)) => true,
        _ => false,
    };
    match phase {
        SendPhase::Connecting => {
            if ends {
                (SendPhase::Stopped, SendAction::Stop)
            } else {
                match connected {
                    Some(true) => (SendPhase::Streaming, SendAction::Wait),
                    Some(false) => (SendPhase::Stopped, SendAction::Stop),
                    None => (SendPhase::Connecting, SendAction::Wait),
                }
            }
        },
        SendPhase::Streaming => match packet {
            Some(bytes) => (SendPhase::Streaming, SendAction::Send(bytes)),
            None => if ends {
                (SendPhase::Stopped, SendAction::Stop)
            } else {
                (SendPhase::Streaming, SendAction::Wait)
            },
        },
        SendPhase::Stopped => (SendPhase::Stopped, SendAction::Stop),
    }
}

/// The task that sends packets to the server.
pub struct ClientSendTask {
    /// Events from the rest of the library; one that ends the connection ends the task.
    pub close_rx: SignalReceiver<ClientIoEvent>,
    /// Word of how the connection attempt has ended.
    pub connected_rx: SignalReceiver<bool>,
    serverbound_rx: Inbox<Vec<u8>>,
    status_tx: SignalSender<ClientIoEvent>,
    server_id: u64,
    phase: SendPhase,
}

impl ClientSendTask {
    /// The queue of events from the rest of the library.
    pub closed spec fn close_queue(&self) -> Sender<ClientIoEvent> {
        self.close_rx.link()
    }

    /// The queue of words of the connection.
    pub closed spec fn connected_queue(&self) -> Sender<bool> {
        self.connected_rx.link()
    }

    /// The queue to the server.
    pub closed spec fn packet_queue(&self) -> Link<Vec<u8>> {
        self.serverbound_rx.link()
    }

    /// The queue of reports.
    pub closed spec fn status_queue(&self) -> Sender<ClientIoEvent> {
        self.status_tx.link()
    }

    /// Whether two tasks have the same server and the same queues.
    pub open spec fn same_wiring(&self, other: &ClientSendTask) -> bool {
        &&& self.spec_server_id() == other.spec_server_id()
        &&& self.close_queue() == other.close_queue()
        &&& self.connected_queue() == other.connected_queue()
        &&& self.packet_queue() == other.packet_queue()
        &&& self.status_queue() == other.status_queue()
    }

    /// How far the task is.
    pub closed spec fn phase(&self) -> SendPhase {
        self.phase
    }

    /// The id of the server.
    pub closed spec fn spec_server_id(&self) -> u64 {
        self.server_id
    }

    /// The events taken from the rest of the library, oldest first.
    pub closed spec fn closes(&self) -> Seq<ClientIoEvent> {
        self.close_rx.log()
    }

    /// The words of the connection taken, oldest first.
    pub closed spec fn connections(&self) -> Seq<bool> {
        self.connected_rx.log()
    }

    /// The packets taken from the queue to the server, oldest first.
    pub closed spec fn packets(&self) -> Seq<Vec<u8>> {
        self.serverbound_rx.log()
    }

    /// What each look for an event from the rest of the library has found, oldest first.
    pub closed spec fn close_looks(&self) -> Seq<Option<ClientIoEvent>> {
        self.close_rx.looks()
    }

    /// What each look for word of the connection has found, oldest first.
    pub closed spec fn connection_looks(&self) -> Seq<Option<bool>> {
        self.connected_rx.looks()
    }

    /// What each look for a packet has found, oldest first.
    pub closed spec fn packet_looks(&self) -> Seq<Look<Vec<u8>>> {
        self.serverbound_rx.looks()
    }

    /// The events reported, oldest first.
    pub closed spec fn reported(&self) -> Seq<ClientIoEvent> {
        self.status_tx.log()
    }

    /// The events that were to be reported, oldest first.
    pub closed spec fn report_attempts(&self) -> Seq<ClientIoEvent> {
        self.status_tx.attempts()
    }

    /// Whether the queue to the server was ever handed out.
    pub closed spec fn is_lent(&self) -> bool {
        self.serverbound_rx.is_lent()
    }

    /// Whether the packets taken are the first that the queue to the server takes, in order, and
    /// nobody else takes any.
    pub open spec fn in_order(&self) -> bool {
        !self.is_lent() && follows(self.packets(), self.packet_queue())
    }

    /// Whether two tasks have looked into their queues alike, and have taken the same.
    pub open spec fn same_looks(&self, other: &ClientSendTask) -> bool {
        &&& self.closes() == other.closes()
        &&& self.connections() == other.connections()
        &&& self.packets() == other.packets()
        &&& self.close_looks() == other.close_looks()
        &&& self.connection_looks() == other.connection_looks()
        &&& self.packet_looks() == other.packet_looks()
        &&& self.is_lent() == other.is_lent()
    }

    /// Whether two tasks have the same server and queues, and have taken and reported the same.
    pub open spec fn same_but_phase(&self, other: &ClientSendTask) -> bool {
        &&& self.same_wiring(other)
        &&& self.same_looks(other)
        &&& self.reported() == other.reported()
        &&& self.report_attempts() == other.report_attempts()
    }

    /// The id of the server, where the packets go.
    pub fn server_id(&self) -> (id: u64)
        ensures
            id == self.spec_server_id(),
    {
        self.server_id
    }

    /// Whether the task still waits for the connection.
    pub fn is_connecting(&self) -> (connecting: bool)
        ensures
            connecting == (self.phase() == SendPhase::Connecting),
    {
        self.phase == SendPhase::Connecting
    }

    /// Looks into the queues and decides what to do next, from what it found; see [`next_send`].
    ///
    /// A queue is looked into exactly when what is in it matters; see [`looks_where_it_matters`].
    pub fn poll(&mut self) -> (action: SendAction)
        ensures
            final(self).same_wiring(old(self)),
            final(self).reported() == old(self).reported(),
            final(self).report_attempts() == old(self).report_attempts(),
            old(self).in_order() ==> final(self).in_order(),
            extends(old(self).close_looks(), final(self).close_looks()),
            extends(old(self).connection_looks(), final(self).connection_looks()),
            extends(old(self).packet_looks(), final(self).packet_looks()),
            ({
                let close = added(old(self).close_looks(), final(self).close_looks());
                let connected = added(
                    old(self).connection_looks(),
                    final(self).connection_looks(),
                );
                let packet = added(old(self).packet_looks(), final(self).packet_looks());
                &&& looks_where_it_matters(old(self).phase(), close, connected, packet)
                &&& final(self).closes() == extended(old(self).closes(), heard_at(close))
                &&& final(self).connections() == extended(
                    old(self).connections(),
                    heard_at(connected),
                )
                &&& final(self).packets() == extended(old(self).packets(), taken_at(packet))
                &&& (final(self).phase(), action) == next_send(
                    old(self).phase(),
                    heard_at(close),
                    heard_at(connected),
                    taken_at(packet),
                )
            }),
    {
        let mut close: Option<ClientIoEvent> = None;
        let mut connected: Option<bool> = None;
        let mut packet: Option<Vec<u8>> = None;
        match self.phase {
            SendPhase::Connecting => {
                close = self.close_rx.try_recv();
                let ends = match &close {
                    Some(ClientIoEvent::Disconnected(_)) => true,
                    _ => false,
                };
                if !ends {
                    connected = self.connected_rx.try_recv();
                }
            },
            SendPhase::Streaming => {
                match self.serverbound_rx.try_recv() {
                    Ok(bytes) => {
                        packet = Some(bytes);
                    },
                    Err(_) => {
                        close = self.close_rx.try_recv();
                    },
                }
            },
            SendPhase::Stopped => {},
        }
        let (phase, action) = decide_send(self.phase, close, connected, packet);
        self.phase = phase;
        action
    }

    /// Takes note of how the connection attempt has ended.
    pub fn on_connected(&mut self, success: bool)
        requires
            old(self).phase() == SendPhase::Connecting,
        ensures
            final(self).phase() == next_send(SendPhase::Connecting, None, Some(success), None).0,
            final(self).same_but_phase(old(self)),
    {
        let (phase, _) = decide_send(self.phase, None, Some(success), None);
        self.phase = phase;
    }

    /// Takes note of an event from the rest of the library while the task waits for the
    /// connection.
    pub fn on_close(&mut self, event: ClientIoEvent)
        requires
            old(self).phase() == SendPhase::Connecting,
        ensures
            final(self).phase() == next_send(SendPhase::Connecting, Some(event), None, None).0,
            final(self).same_but_phase(old(self)),
    {
        let (phase, _) = decide_send(self.phase, Some(event), None, None);
        self.phase = phase;
    }

    /// Takes note of whether a packet could be handed over. If not, the task is over, and that
    /// the connection was lost is reported. Fails if nobody listens to reports.
    pub fn on_sent(&mut self, delivered: bool) -> (noted: Result<(), Error>)
        ensures
            final(self).same_wiring(old(self)),
            final(self).same_looks(old(self)),
            final(self).phase() == (if delivered {
                old(self).phase()
            } else {
                SendPhase::Stopped
            }),
            extends(old(self).report_attempts(), final(self).report_attempts()),
            match added(old(self).report_attempts(), final(self).report_attempts()) {
                Some(event) => {
                    &&& !delivered
                    &&& event matches ClientIoEvent::Disconnected(error)
                    &&& error.is_io("mugon connection was lost"@)
                },
                None => delivered,
            },
            extends(old(self).reported(), final(self).reported()),
            match added(old(self).reported(), final(self).reported()) {
                Some(event) => {
                    &&& !delivered
                    &&& noted is Ok
                    &&& event == final(self).report_attempts().last()
                },
                None => match noted {
                    Ok(()) => delivered,
                    Err(error) => !delivered && error == Error::Channel,
                },
            },
    {
        if delivered {
            return Ok(());
        }
        self.phase = SendPhase::Stopped;
        let error = io_error("mugon connection was lost", "");
        proof {
            reveal_strlit("");
            assert("mugon connection was lost"@ + ""@ =~= "mugon connection was lost"@);
        }
        self.status_tx.notify(ClientIoEvent::Disconnected(error))
    }
}

/// What a client's socket is made from.
pub struct MugonClientSocketBuilder {
    /// The address of the server.
    pub server_addr: SocketAddr,
    /// The local address.
    pub local_addr: SocketAddr,
}

/// A client's socket with all that keeps it running.
pub struct ClientConnection {
    /// The socket.
    pub socket: MugonClientSocket,
    /// The state that the transport starts in.
    pub state: IoState,
    /// Where the events of the transport come out. A client of this transport hands out none.
    pub events: Option<SignalReceiver<ClientIoEvent>>,
    /// Where the rest of the library asks for the connection to end.
    pub close_tx: Option<SignalSender<ClientIoEvent>>,
    /// To be called when the connection attempt has ended.
    pub on_new_connection: OnNewConnection,
    /// To be called when something comes in from the server.
    pub on_new_message: OnNewMessage,
    /// To be called when the server is gone.
    pub on_disconnected: OnDisconnected,
    /// To be run for as long as the connection lives.
    pub send_task: ClientSendTask,
    /// Where the reports come out. Without it nobody listens to them: a report of how the
    /// connection attempt has ended would fail, and the task would not be told. So it has to be
    /// kept until the handlers are in place.
    pub status_rx: SignalReceiver<ClientIoEvent>,
}

impl MugonClientSocketBuilder {
    /// Makes a socket, the handlers of what happens to it, and the task that sends its packets.
    pub fn connect(self) -> (connection: Result<ClientConnection, Error>)
        ensures
            connection matches Ok(c) && {
                &&& c.socket.sender().queue() == c.send_task.packet_queue()
                &&& c.socket.receiver().queue() == c.on_new_message.queue()
                &&& c.close_tx is Some
                &&& c.close_tx->Some_0.link() == c.send_task.close_queue()
                &&& c.on_new_connection.connected_queue() == c.send_task.connected_queue()
                &&& c.on_new_connection.status_queue() == c.send_task.status_queue()
                &&& c.on_disconnected.status_queue() == c.send_task.status_queue()
                &&& c.status_rx.link() == c.send_task.status_queue()
                &&& c.socket.sender().sent() == Seq::<Seq<u8>>::empty()
                &&& c.socket.sender().attempted() == Seq::<Seq<u8>>::empty()
                &&& c.socket.sender().in_order()
                &&& c.socket.receiver().in_order()
                &&& c.on_new_message.in_order()
                &&& c.send_task.in_order()
                &&& c.socket.receiver().taken() == Seq::<Message>::empty()
                &&& c.socket.receiver().looks() == Seq::<Look<Message>>::empty()
                &&& c.socket.receiver().server_addr() == self.server_addr
                &&& c.socket.receiver().buffer() == Seq::new(MTU as nat, |i: int| 0u8)
                &&& c.state == IoState::Connected
                &&& c.events is None
                &&& c.close_tx->Some_0.log() == Seq::<ClientIoEvent>::empty()
                &&& c.close_tx->Some_0.attempts() == Seq::<ClientIoEvent>::empty()
                &&& c.on_new_connection.reported() == Seq::<ClientIoEvent>::empty()
                &&& c.on_new_connection.report_attempts() == Seq::<ClientIoEvent>::empty()
                &&& c.on_new_connection.signalled() == Seq::<bool>::empty()
                &&& c.on_new_connection.signal_attempts() == Seq::<bool>::empty()
                &&& c.on_new_message.queued() == Seq::<Message>::empty()
                &&& c.on_new_message.attempted() == Seq::<Message>::empty()
                &&& c.on_disconnected.reported() == Seq::<ClientIoEvent>::empty()
                &&& c.on_disconnected.report_attempts() == Seq::<ClientIoEvent>::empty()
                &&& c.send_task.phase() == SendPhase::Connecting
                &&& c.send_task.spec_server_id() == id_of(self.server_addr)
                &&& c.send_task.closes() == Seq::<ClientIoEvent>::empty()
                &&& c.send_task.connections() == Seq::<bool>::empty()
                &&& c.send_task.packets() == Seq::<Vec<u8>>::empty()
                &&& c.send_task.close_looks() == Seq::<Option<ClientIoEvent>>::empty()
                &&& c.send_task.connection_looks() == Seq::<Option<bool>>::empty()
                &&& c.send_task.packet_looks() == Seq::<Look<Vec<u8>>>::empty()
                &&& c.send_task.reported() == Seq::<ClientIoEvent>::empty()
                &&& c.send_task.report_attempts() == Seq::<ClientIoEvent>::empty()
                &&& c.status_rx.log() == Seq::<ClientIoEvent>::empty()
                &&& c.status_rx.looks() == Seq::<Option<ClientIoEvent>>::empty()
            },
    {
        // queues between the socket and the rest of the transport
        let (serverbound_tx, serverbound_rx) = queue::<Vec<u8>>();
        let (from_server_tx, clientbound_rx) = queue::<Message>();
        // where the rest of the library ends the connection
        let (close_tx, close_rx) = signal::<ClientIoEvent>().ends();
        // where the transport reports what happens
        let (status_tx, status_rx) = signal::<ClientIoEvent>().ends();
        // where the task that sends packets learns how the connection attempt has ended
        let (connected_tx, connected_rx) = signal::<bool>().ends();
        let server_id = socket_addr_to_id(&self.server_addr);
        let on_disconnected = OnDisconnected { status_tx: status_tx.another() };
        let send_task = ClientSendTask {
            close_rx,
            connected_rx,
            serverbound_rx,
            status_tx: status_tx.another(),
            server_id,
            phase: SendPhase::Connecting,
        };
        let sender = MugonClientSocketSender { serverbound_tx };
        let receiver = MugonClientSocketReceiver {
            buffer: PacketBuffer::new(),
            server_addr: self.server_addr,
            clientbound_rx,
        };
        assert(sender.sent() =~= Seq::<Seq<u8>>::empty());
        assert(sender.attempted() =~= Seq::<Seq<u8>>::empty());
        Ok(
            ClientConnection {
                socket: MugonClientSocket { sender, receiver },
                state: IoState::Connected,
                events: None,
                close_tx: Some(close_tx),
                on_new_connection: OnNewConnection { status_tx, connected_tx },
                on_new_message: OnNewMessage { from_server_tx },
                on_disconnected,
                send_task,
                status_rx,
            },
        )
    }
}

/// Packets come out of a client's socket as they went in: the packet that the task has taken
/// after some others is the one that the socket was given after as many.
pub proof fn law_packets_reach_the_task_as_they_were_sent(
    sender: MugonClientSocketSender,
    task: ClientSendTask,
    i: int,
)
    requires
        sender.queue() == task.packet_queue(),
        sender.in_order(),
        task.in_order(),
        0 <= i < sender.sent().len(),
        0 <= i < task.packets().len(),
    ensures
        task.packets()[i]@ == sender.sent()[i],
{
}

/// Messages come out of a client's socket as they came in from the server.
pub proof fn law_messages_reach_the_client_as_they_came_in(
    handler: OnNewMessage,
    receiver: MugonClientSocketReceiver,
    i: int,
)
    requires
        handler.queue() == receiver.queue(),
        handler.in_order(),
        receiver.in_order(),
        0 <= i < handler.queued().len(),
        0 <= i < receiver.taken().len(),
    ensures
        receiver.taken()[i] == handler.queued()[i],
{
    law_values_come_out_as_they_went_in(handler.queued(), receiver.taken(), receiver.queue());
}

/// One turn of the task that sends packets: what it found in each queue that it looked into, and,
/// if that was a packet, whether it could be handed over.
pub struct SendTurn {
    /// The look for an event from the rest of the library.
    pub close: Option<Option<ClientIoEvent>>,
    /// The look for word of the connection.
    pub connected: Option<Option<bool>>,
    /// The look for a packet.
    pub packet: Option<Look<Vec<u8>>>,
    /// Whether a packet could be handed over.
    pub delivered: bool,
}

/// What the task that sends packets does at a turn; see [`next_send`].
pub open spec fn turn_taken(phase: SendPhase, turn: SendTurn) -> (SendPhase, SendAction) {
    next_send(phase, heard_at(turn.close), heard_at(turn.connected), taken_at(turn.packet))
}

/// The phase of the task that sends packets after a turn and after what it did: a packet that
/// could not be handed over ends it.
pub open spec fn phase_after_turn(phase: SendPhase, turn: SendTurn) -> SendPhase {
    let (next, action) = turn_taken(phase, turn);
    if action is Send && !turn.delivered {
        SendPhase::Stopped
    } else {
        next
    }
}

/// The phase of the task that sends packets after some turns.
pub open spec fn phase_after(turns: Seq<SendTurn>) -> SendPhase
    decreases turns.len(),
{
    if turns.len() == 0 {
        SendPhase::Connecting
    } else {
        phase_after_turn(phase_after(turns.drop_last()), turns.last())
    }
}

/// The packets that the task has tried to hand over in some turns, oldest first.
pub open spec fn packets_sent(turns: Seq<SendTurn>) -> Seq<Vec<u8>>
    decreases turns.len(),
{
    if turns.len() == 0 {
        Seq::empty()
    } else {
        let earlier = packets_sent(turns.drop_last());
        match turn_taken(phase_after(turns.drop_last()), turns.last()).1 {
            SendAction::Send(packet) => earlier.push(packet),
            _ => earlier,
        }
    }
}

/// The packets that the task has taken out of its queue in some turns, oldest first.
pub open spec fn packets_taken(turns: Seq<SendTurn>) -> Seq<Vec<u8>>
    decreases turns.len(),
{
    if turns.len() == 0 {
        Seq::empty()
    } else {
        extended(packets_taken(turns.drop_last()), taken_at(turns.last().packet))
    }
}

/// Whether a task that waits for the connection was woken by the first thing that came: an event
/// from the rest of the library, or word of the connection.
pub open spec fn is_woken(phase: SendPhase, turn: SendTurn) -> bool {
    &&& phase == SendPhase::Connecting
    &&& turn.packet is None
    &&& match turn.close {
        Some(event) => event is Some && turn.connected is None,
        None => heard_at(turn.connected) is Some,
    }
}

/// Whether a task in a phase can take a turn: it looks into its queues, as
/// [`ClientSendTask::poll`] does, or it is woken, as [`ClientSendTask::on_close`] and
/// [`ClientSendTask::on_connected`] take note of.
pub open spec fn can_take(phase: SendPhase, turn: SendTurn) -> bool {
    ||| looks_where_it_matters(phase, turn.close, turn.connected, turn.packet)
    ||| is_woken(phase, turn)
}

/// Whether a task can take some turns, one after the other.
pub open spec fn is_run(turns: Seq<SendTurn>) -> bool
    decreases turns.len(),
{
    turns.len() == 0 || (is_run(turns.drop_last()) && can_take(
        phase_after(turns.drop_last()),
        turns.last(),
    ))
}

/// Whether a turn ends the task: an event that does so, word that there is no connection, or a
/// packet that could not be handed over.
pub open spec fn stops(turn: SendTurn) -> bool {
    ||| ends_task(heard_at(turn.close))
    ||| heard_at(turn.connected) == Some(false)
    ||| taken_at(turn.packet) is Some && !turn.delivered
}

/// A task is over exactly when a turn has ended it.
pub proof fn law_a_task_stops_for_a_reason(turns: Seq<SendTurn>)
    requires
        is_run(turns),
    ensures
        phase_after(turns) == SendPhase::Stopped <==> exists|i: int|
            0 <= i < turns.len() && stops(#[trigger] turns[i]),
    decreases turns.len(),
{
    if turns.len() > 0 {
        let earlier = turns.drop_last();
        law_a_task_stops_for_a_reason(earlier);
        if phase_after(turns) == SendPhase::Stopped {
            if phase_after(earlier) == SendPhase::Stopped {
                let i = choose|i: int| 0 <= i < earlier.len() && stops(#[trigger] earlier[i]);
                assert(stops(turns[i]));
            } else {
                assert(stops(turns[turns.len() - 1]));
            }
        }
        if exists|i: int| 0 <= i < turns.len() && stops(#[trigger] turns[i]) {
            let i = choose|i: int| 0 <= i < turns.len() && stops(#[trigger] turns[i]);
            if i < earlier.len() {
                assert(stops(earlier[i]));
            }
        }
    }
}

/// While a task waits for the connection, it hears a request to stop at every turn at which it
/// looks into its queues, and word of the connection unless there is such a request; the word
/// that the connection was made, and nothing else, starts the sending.
pub proof fn law_how_the_wait_for_the_connection_ends(turns: Seq<SendTurn>, turn: SendTurn)
    requires
        is_run(turns.push(turn)),
        phase_after(turns) == SendPhase::Connecting,
    ensures
        !is_woken(SendPhase::Connecting, turn) ==> turn.close is Some,
        !is_woken(SendPhase::Connecting, turn) && !ends_task(heard_at(turn.close))
            ==> turn.connected is Some,
        phase_after(turns.push(turn)) == (if ends_task(heard_at(turn.close)) {
            SendPhase::Stopped
        } else {
            match heard_at(turn.connected) {
                Some(true) => SendPhase::Streaming,
                Some(false) => SendPhase::Stopped,
                None => SendPhase::Connecting,
            }
        }),
        packets_sent(turns.push(turn)) == packets_sent(turns),
{
    assert(turns.push(turn).drop_last() =~= turns);
}

/// Nothing is sent before word came that the connection was made.
pub proof fn law_nothing_is_sent_before_the_connection(turns: Seq<SendTurn>)
    requires
        packets_sent(turns).len() > 0,
    ensures
        exists|i: int|
            0 <= i < turns.len() - 1 && heard_at((#[trigger] turns[i]).connected) == Some(true),
    decreases turns.len(),
{
    let earlier = turns.drop_last();
    if packets_sent(earlier).len() > 0 {
        law_nothing_is_sent_before_the_connection(earlier);
        let i = choose|i: int|
            0 <= i < earlier.len() - 1 && heard_at((#[trigger] earlier[i]).connected) == Some(true);
        assert(heard_at(turns[i].connected) == Some(true));
    } else {
        lemma_streaming_after_connection(earlier);
        let i = choose|i: int|
            0 <= i < earlier.len() && heard_at((#[trigger] earlier[i]).connected) == Some(true);
        assert(heard_at(turns[i].connected) == Some(true));
    }
}

/// The task streams only after word came that the connection was made.
proof fn lemma_streaming_after_connection(turns: Seq<SendTurn>)
    requires
        phase_after(turns) == SendPhase::Streaming,
    ensures
        exists|i: int|
            0 <= i < turns.len() && heard_at((#[trigger] turns[i]).connected) == Some(true),
    decreases turns.len(),
{
    let earlier = turns.drop_last();
    if phase_after(earlier) == SendPhase::Streaming {
        lemma_streaming_after_connection(earlier);
        let i = choose|i: int|
            0 <= i < earlier.len() && heard_at((#[trigger] earlier[i]).connected) == Some(true);
        assert(heard_at(turns[i].connected) == Some(true));
    } else {
        assert(heard_at(turns[turns.len() - 1].connected) == Some(true));
    }
}

/// Every packet that the task takes out of its queue is sent, in order and once; and no other
/// packet is.
pub proof fn law_packets_are_sent_in_order(turns: Seq<SendTurn>)
    requires
        is_run(turns),
    ensures
        packets_sent(turns) == packets_taken(turns),
    decreases turns.len(),
{
    if turns.len() > 0 {
        law_packets_are_sent_in_order(turns.drop_last());
    }
}

/// Once the task is over it stays over: it sends nothing more, whatever is in its queues.
pub proof fn law_a_stopped_task_stays_stopped(turns: Seq<SendTurn>, more: Seq<SendTurn>)
    requires
        phase_after(turns) == SendPhase::Stopped,
    ensures
        phase_after(turns + more) == SendPhase::Stopped,
        packets_sent(turns + more) == packets_sent(turns),
    decreases more.len(),
{
    if more.len() == 0 {
        assert(turns + more =~= turns);
    } else {
        law_a_stopped_task_stays_stopped(turns, more.drop_last());
        assert((turns + more).drop_last() =~= turns + more.drop_last());
    }
}

/// Packets that wait in the queue of a connected task go out in order, one at each turn, whatever
/// requests to stop there are, for as long as they can be handed over.
///
/// The packets that wait are given by what the looks find: where the task looks for a packet at
/// one of the first turns, it finds the next of them.
pub proof fn law_waiting_packets_go_out(
    before: Seq<SendTurn>,
    turns: Seq<SendTurn>,
    waiting: Seq<Vec<u8>>,
)
    requires
        phase_after(before) == SendPhase::Streaming,
        is_run(before + turns),
        turns.len() == waiting.len(),
        forall|i: int|
            0 <= i < turns.len() && (#[trigger] turns[i]).packet is Some ==> turns[i].packet
                == Some(Ok::<Vec<u8>, NotReceived>(waiting[i])),
        forall|i: int| 0 <= i < turns.len() ==> (#[trigger] turns[i]).delivered,
    ensures
        phase_after(before + turns) == SendPhase::Streaming,
        packets_sent(before + turns) == packets_sent(before) + waiting,
    decreases turns.len(),
{
    let run = before + turns;
    if turns.len() == 0 {
        assert(run =~= before);
        assert(packets_sent(before) + waiting =~= packets_sent(before));
    } else {
        let earlier = turns.drop_last();
        let last = turns.len() - 1;
        assert(run.drop_last() =~= before + earlier);
        assert(forall|i: int| 0 <= i < earlier.len() ==> #[trigger] earlier[i] == turns[i]);
        law_waiting_packets_go_out(before, earlier, waiting.drop_last());
        assert(run.last() == turns[last]);
        assert(packets_sent(before) + waiting =~= (packets_sent(before) + waiting.drop_last()).push(
            waiting[last],
        ));
    }
}

/// Word that the connection was made starts the sending: the packets that wait by then, and no
/// others before them, go out in order, one at each turn, for as long as they can be handed over.
///
/// The packets that wait are given as in [`law_waiting_packets_go_out`].
pub proof fn law_word_of_the_connection_starts_the_sending(
    before: Seq<SendTurn>,
    word: SendTurn,
    turns: Seq<SendTurn>,
    waiting: Seq<Vec<u8>>,
)
    requires
        phase_after(before) == SendPhase::Connecting,
        is_run(before.push(word) + turns),
        !ends_task(heard_at(word.close)),
        heard_at(word.connected) == Some(true),
        turns.len() == waiting.len(),
        forall|i: int|
            0 <= i < turns.len() && (#[trigger] turns[i]).packet is Some ==> turns[i].packet
                == Some(Ok::<Vec<u8>, NotReceived>(waiting[i])),
        forall|i: int| 0 <= i < turns.len() ==> (#[trigger] turns[i]).delivered,
    ensures
        phase_after(before.push(word) + turns) == SendPhase::Streaming,
        packets_sent(before.push(word) + turns) == waiting,
{
    lemma_runs_begin_with_runs(before.push(word), turns);
    law_how_the_wait_for_the_connection_ends(before, word);
    lemma_nothing_is_sent_while_connecting(before);
    law_waiting_packets_go_out(before.push(word), turns, waiting);
    assert(Seq::<Vec<u8>>::empty() + waiting =~= waiting);
}

/// A task that still waits for the connection has sent nothing.
proof fn lemma_nothing_is_sent_while_connecting(turns: Seq<SendTurn>)
    requires
        phase_after(turns) == SendPhase::Connecting,
    ensures
        packets_sent(turns) == Seq::<Vec<u8>>::empty(),
    decreases turns.len(),
{
    if turns.len() > 0 {
        lemma_nothing_is_sent_while_connecting(turns.drop_last());
    }
}

/// The first packet that cannot be handed over is the last that goes out: it is not sent again,
/// and none of those that wait behind it is ever sent.
///
/// `refused` is the turn at which that packet comes out of the queue; the packets that wait are
/// given as in [`law_waiting_packets_go_out`].
pub proof fn law_nothing_is_sent_after_a_refusal(
    before: Seq<SendTurn>,
    turns: Seq<SendTurn>,
    waiting: Seq<Vec<u8>>,
    refused: int,
)
    requires
        phase_after(before) == SendPhase::Streaming,
        is_run(before + turns),
        0 <= refused < turns.len(),
        refused < waiting.len(),
        forall|i: int|
            0 <= i <= refused && (#[trigger] turns[i]).packet is Some ==> turns[i].packet == Some(
                Ok::<Vec<u8>, NotReceived>(waiting[i]),
            ),
        forall|i: int| 0 <= i < refused ==> (#[trigger] turns[i]).delivered,
        !turns[refused].delivered,
    ensures
        phase_after(before + turns) == SendPhase::Stopped,
        packets_sent(before + turns) == packets_sent(before) + waiting.take(refused + 1),
{
    let delivered = turns.take(refused);
    let until = turns.take(refused + 1);
    let after = turns.skip(refused + 1);
    assert((before + until) + after =~= before + turns);
    lemma_runs_begin_with_runs(before + until, after);
    assert((before + until).drop_last() =~= before + delivered);
    law_waiting_packets_go_out(before, delivered, waiting.take(refused));
    assert((before + until).last() == turns[refused]);
    assert(packets_sent(before) + waiting.take(refused + 1) =~= (packets_sent(before)
        + waiting.take(refused)).push(waiting[refused]));
    law_a_stopped_task_stays_stopped(before + until, after);
}

/// The first turns of a run are a run.
proof fn lemma_runs_begin_with_runs(turns: Seq<SendTurn>, more: Seq<SendTurn>)
    requires
        is_run(turns + more),
    ensures
        is_run(turns),
    decreases more.len(),
{
    if more.len() == 0 {
        assert(turns + more =~= turns);
    } else {
        assert((turns + more).drop_last() =~= turns + more.drop_last());
        lemma_runs_begin_with_runs(turns, more.drop_last());
    }
}

}
