//! What the client's side is for: how calls of its functions hang together.
//!
//! As in [`crate::protocol::laws`], `call_ensures(f, arguments, result)` says that a call of `f`
//! with these arguments has given this result.
use vstd::prelude::*;
use crate::transport::address::SocketAddr;
use crate::transport::error::{Error, IoError};
use crate::transport::event::{ClientIoEvent, IoState};
use crate::transport::mugon::client::{
    decide_send, serverbound_result, ClientConnection, ClientSendTask, MugonClientSocket,
    MugonClientSocketBuilder, MugonClientSocketReceiver, MugonClientSocketSender, OnDisconnected,
    OnNewConnection, OnNewMessage, SendAction, SendPhase,
};
use crate::transport::mugon::common::Message;
use crate::transport::queue::{lemma_grown, Look, NotReceived, Refused};

verus! {

/// Connecting succeeds at once, whatever the addresses; the socket hands packets to the task and
/// gets those that the page hands in; what the page reports goes to the task and to the listener;
/// and the rest of the library can ask the task to stop.
pub proof fn law_a_connection_is_wired_up(
    builder: MugonClientSocketBuilder,
    connection: Result<ClientConnection, Error>,
)
    requires
        call_ensures(MugonClientSocketBuilder::connect, (builder,), connection),
    ensures
        connection is Ok,
        ({
            let c = connection->Ok_0;
            &&& c.socket.sender().queue() == c.send_task.packet_queue()
            &&& c.on_new_message.queue() == c.socket.receiver().queue()
            &&& c.close_tx is Some && c.close_tx->Some_0.link() == c.send_task.close_queue()
            &&& c.on_new_connection.connected_queue() == c.send_task.connected_queue()
            &&& c.on_new_connection.status_queue() == c.status_rx.link()
            &&& c.on_disconnected.status_queue() == c.status_rx.link()
            &&& c.send_task.status_queue() == c.status_rx.link()
            &&& c.send_task.phase() == SendPhase::Connecting
            &&& c.state == IoState::Connected
            &&& c.events is None
            &&& c.socket.receiver().server_addr() == builder.server_addr
            &&& c.socket.sender().sent().len() == 0
            &&& c.send_task.packets().len() == 0
            &&& c.on_new_message.queued().len() == 0
            &&& c.socket.receiver().taken().len() == 0
            &&& c.socket.sender().in_order()
            &&& c.send_task.in_order()
            &&& c.on_new_message.in_order()
            &&& c.socket.receiver().in_order()
        }),
{
}

/// The packets of a client go to the id of its server's address: the low half of an IPv6 address,
/// whatever its port, and the highest id for an IPv4 address. The local address does not matter.
pub proof fn law_packets_go_to_the_server(
    builder: MugonClientSocketBuilder,
    connection: Result<ClientConnection, Error>,
    task: ClientSendTask,
    id: u64,
)
    requires
        call_ensures(MugonClientSocketBuilder::connect, (builder,), connection),
        connection matches Ok(c) && c.send_task == task,
        call_ensures(ClientSendTask::server_id, (&task,), id),
    ensures
        match builder.server_addr {
            SocketAddr::V6(addr) => (addr.ip - id) % 0x1_0000_0000_0000_0000 == 0,
            SocketAddr::V4(_) => id == 0xffff_ffff_ffff_ffff,
        },
{
}

/// Whatever a task does, its server and its queues stay the same.
pub proof fn law_a_task_keeps_its_server_and_queues(
    task: &mut ClientSendTask,
    action: SendAction,
    event: ClientIoEvent,
    flag: bool,
    noted: Result<(), Error>,
    ids: (u64, u64),
)
    requires
        call_ensures(ClientSendTask::poll, (task,), action) || call_ensures(
            ClientSendTask::on_close,
            (task, event),
            (),
        ) || call_ensures(ClientSendTask::on_connected, (task, flag), ()) || call_ensures(
            ClientSendTask::on_sent,
            (task, flag),
            noted,
        ),
        call_ensures(ClientSendTask::server_id, (&*old(task),), ids.0),
        call_ensures(ClientSendTask::server_id, (&*final(task),), ids.1),
    ensures
        ids.0 == ids.1,
        final(task).packet_queue() == old(task).packet_queue(),
        final(task).close_queue() == old(task).close_queue(),
        final(task).connected_queue() == old(task).connected_queue(),
        final(task).status_queue() == old(task).status_queue(),
        old(task).in_order() ==> final(task).in_order(),
{
}

/// A task stops at once when it hears a request to stop, whatever error comes with it: while it
/// waits for the connection, and while it is connected and there is no packet in its queue.
pub proof fn law_a_request_to_stop_is_obeyed(
    task: &mut ClientSendTask,
    action: SendAction,
    error: Error,
)
    requires
        call_ensures(ClientSendTask::poll, (task,), action),
        final(task).close_looks() == old(task).close_looks().push(
            Some(ClientIoEvent::Disconnected(error)),
        ),
    ensures
        action == SendAction::Stop,
        final(task).phase() == SendPhase::Stopped,
        final(task).closes() == old(task).closes().push(ClientIoEvent::Disconnected(error)),
        final(task).packets() == old(task).packets(),
{
    lemma_pushed(old(task).close_looks(), Some(ClientIoEvent::Disconnected(error)));
    lemma_grown(old(task).close_looks(), final(task).close_looks());
    lemma_grown(old(task).packet_looks(), final(task).packet_looks());
}

/// A task that waits for the connection looks for a request to stop at every turn, and, unless it
/// has found one, for word of the connection; it never looks for a packet and never sends one.
/// It stops only for such a request or because there is no connection, and is connected only
/// because there is one.
pub proof fn law_a_task_waits_for_the_connection(task: &mut ClientSendTask, action: SendAction)
    requires
        call_ensures(ClientSendTask::poll, (task,), action),
        old(task).phase() == SendPhase::Connecting,
    ensures
        final(task).packet_looks() == old(task).packet_looks(),
        final(task).packets() == old(task).packets(),
        final(task).close_looks().len() == old(task).close_looks().len() + 1,
        final(task).close_looks().drop_last() == old(task).close_looks(),
        match final(task).close_looks().last() {
            Some(ClientIoEvent::Disconnected(_)) => {
                &&& action == SendAction::Stop
                &&& final(task).phase() == SendPhase::Stopped
                &&& final(task).connection_looks() == old(task).connection_looks()
            },
            _ => {
                &&& final(task).connection_looks().len() == old(task).connection_looks().len() + 1
                &&& final(task).connection_looks().drop_last() == old(task).connection_looks()
                &&& match final(task).connection_looks().last() {
                    Some(true) => action == SendAction::Wait && final(task).phase()
                        == SendPhase::Streaming,
                    Some(false) => action == SendAction::Stop && final(task).phase()
                        == SendPhase::Stopped,
                    None => action == SendAction::Wait && final(task).phase()
                        == SendPhase::Connecting,
                }
            },
        },
{
    lemma_grown(old(task).close_looks(), final(task).close_looks());
    lemma_grown(old(task).connection_looks(), final(task).connection_looks());
}

/// A connected task looks for a packet at every turn and sends what it finds, unchanged; only if
/// it finds none does it look for a request to stop, and it stops only for one.
pub proof fn law_a_connected_task_sends(task: &mut ClientSendTask, action: SendAction)
    requires
        call_ensures(ClientSendTask::poll, (task,), action),
        old(task).phase() == SendPhase::Streaming,
    ensures
        final(task).connection_looks() == old(task).connection_looks(),
        final(task).packet_looks().len() == old(task).packet_looks().len() + 1,
        final(task).packet_looks().drop_last() == old(task).packet_looks(),
        match final(task).packet_looks().last() {
            Ok(packet) => {
                &&& action == SendAction::Send(packet)
                &&& final(task).phase() == SendPhase::Streaming
                &&& final(task).close_looks() == old(task).close_looks()
                &&& final(task).packets() == old(task).packets().push(packet)
            },
            Err(_) => {
                &&& final(task).packets() == old(task).packets()
                &&& final(task).close_looks().len() == old(task).close_looks().len() + 1
                &&& final(task).close_looks().drop_last() == old(task).close_looks()
                &&& match final(task).close_looks().last() {
                    Some(ClientIoEvent::Disconnected(_)) => action == SendAction::Stop
                        && final(task).phase() == SendPhase::Stopped,
                    _ => action == SendAction::Wait && final(task).phase() == SendPhase::Streaming,
                }
            },
        },
{
    lemma_grown(old(task).packet_looks(), final(task).packet_looks());
    lemma_grown(old(task).close_looks(), final(task).close_looks());
}

/// A task that is over looks into no queue, sends nothing and reports nothing.
pub proof fn law_a_task_that_is_over_does_nothing(task: &mut ClientSendTask, action: SendAction)
    requires
        call_ensures(ClientSendTask::poll, (task,), action),
        old(task).phase() == SendPhase::Stopped,
    ensures
        action == SendAction::Stop,
        final(task).phase() == SendPhase::Stopped,
        final(task).packet_looks() == old(task).packet_looks(),
        final(task).close_looks() == old(task).close_looks(),
        final(task).connection_looks() == old(task).connection_looks(),
        final(task).packets() == old(task).packets(),
        final(task).report_attempts() == old(task).report_attempts(),
{
}

/// What wakes a waiting task counts as what it finds itself: word of the connection connects or
/// ends it, and any request to stop ends it; nothing else does.
pub proof fn law_a_woken_task_takes_note(
    told: &mut ClientSendTask,
    success: bool,
    asked: &mut ClientSendTask,
    event: ClientIoEvent,
    connecting: bool,
)
    requires
        call_ensures(ClientSendTask::on_connected, (told, success), ()),
        call_ensures(ClientSendTask::on_close, (asked, event), ()),
        call_ensures(ClientSendTask::is_connecting, (&*final(asked),), connecting),
    ensures
        success ==> final(told).phase() == SendPhase::Streaming,
        !success ==> final(told).phase() == SendPhase::Stopped,
        event is Disconnected ==> final(asked).phase() == SendPhase::Stopped,
        event is Connected ==> final(asked).phase() == SendPhase::Connecting,
        connecting <==> event is Connected,
        final(told).packets() == old(told).packets(),
        final(asked).packets() == old(asked).packets(),
        final(told).packet_looks() == old(told).packet_looks(),
        final(asked).packet_looks() == old(asked).packet_looks(),
{
}

/// A task tells whether it still waits for the connection.
pub proof fn law_a_task_tells_whether_it_waits(task: ClientSendTask, connecting: bool)
    requires
        call_ensures(ClientSendTask::is_connecting, (&task,), connecting),
    ensures
        connecting <==> task.phase() == SendPhase::Connecting,
{
}

/// The decision alone: any request to stop ends a task that waits for the connection, and one
/// that is connected and has no packet; a packet is sent by a connected task only, and unchanged.
pub proof fn law_how_a_task_decides(
    close: Option<ClientIoEvent>,
    connected: Option<bool>,
    packet: Option<Vec<u8>>,
    waiting: (SendPhase, SendAction),
    streaming: (SendPhase, SendAction),
    over: (SendPhase, SendAction),
)
    requires
        call_ensures(decide_send, (SendPhase::Connecting, close, connected, packet), waiting),
        call_ensures(decide_send, (SendPhase::Streaming, close, connected, packet), streaming),
        call_ensures(decide_send, (SendPhase::Stopped, close, connected, packet), over),
    ensures
        over == (SendPhase::Stopped, SendAction::Stop),
        packet matches Some(p) ==> streaming == (SendPhase::Streaming, SendAction::Send(p)),
        match close {
            Some(ClientIoEvent::Disconnected(_)) => {
                &&& waiting == (SendPhase::Stopped, SendAction::Stop)
                &&& packet is None ==> streaming == (SendPhase::Stopped, SendAction::Stop)
            },
            _ => {
                &&& packet is None ==> streaming == (SendPhase::Streaming, SendAction::Wait)
                &&& connected == Some(true) ==> waiting == (SendPhase::Streaming, SendAction::Wait)
                &&& connected == Some(false) ==> waiting == (SendPhase::Stopped, SendAction::Stop)
                &&& connected is None ==> waiting == (SendPhase::Connecting, SendAction::Wait)
            },
        },
{
}

/// A packet that the page did not take ends the task, and the loss is to be reported, once; a
/// packet that it took changes nothing.
pub proof fn law_a_lost_packet_ends_the_task(
    task: &mut ClientSendTask,
    delivered: bool,
    noted: Result<(), Error>,
)
    requires
        call_ensures(ClientSendTask::on_sent, (task, delivered), noted),
    ensures
        delivered ==> {
            &&& noted is Ok
            &&& final(task).phase() == old(task).phase()
            &&& final(task).report_attempts() == old(task).report_attempts()
            &&& final(task).reported() == old(task).reported()
        },
        !delivered ==> {
            let attempts = final(task).report_attempts();
            &&& final(task).phase() == SendPhase::Stopped
            &&& attempts.len() == old(task).report_attempts().len() + 1
            &&& attempts.drop_last() == old(task).report_attempts()
            &&& attempts.last() matches ClientIoEvent::Disconnected(Error::Io(IoError::Other(text)))
                && text@ == "mugon connection was lost"@
            &&& noted is Ok ==> final(task).reported() == old(task).reported().push(attempts.last())
            &&& noted is Err ==> noted == Err::<(), Error>(Error::Channel) && final(task).reported()
                == old(task).reported()
        },
        final(task).packets() == old(task).packets(),
        final(task).packet_looks() == old(task).packet_looks(),
        final(task).close_looks() == old(task).close_looks(),
        final(task).connection_looks() == old(task).connection_looks(),
{
    lemma_grown(old(task).report_attempts(), final(task).report_attempts());
    lemma_grown(old(task).reported(), final(task).reported());
}

/// Every packet that is sent is handed to the queue to the server, with all its bytes and behind
/// those handed over before, whatever the address; if the queue refuses it, the error says so.
pub proof fn law_a_sent_packet_is_queued(
    sender: &mut MugonClientSocketSender,
    payload: &[u8],
    address: SocketAddr,
    sent: Result<(), Error>,
)
    requires
        call_ensures(MugonClientSocketSender::send, (sender, payload, &address), sent),
    ensures
        final(sender).queue() == old(sender).queue(),
        final(sender).attempted() == old(sender).attempted().push(payload@),
        match sent {
            Ok(()) => final(sender).sent() == old(sender).sent().push(payload@),
            Err(Error::Io(IoError::Other(text))) => final(sender).sent() == old(sender).sent()
                && text@ == "unable to send message to server: "@ + "SendError { .. }"@,
            _ => false,
        },
{
}

/// A refusal by the queue to the server becomes an error that tells the reason, and nothing else
/// becomes one.
pub proof fn law_a_refusal_is_told(
    outcome: Result<(), Refused<Vec<u8>>>,
    sent: Result<(), Error>,
)
    requires
        call_ensures(serverbound_result, (outcome,), sent),
    ensures
        match (outcome, sent) {
            (Ok(()), Ok(())) => true,
            (Err(refused), Err(Error::Io(IoError::Other(text)))) => text@
                == "unable to send message to server: "@ + refused.debug@,
            _ => false,
        },
{
}

/// A packet that was put into the socket of a connected client is the one that its task sends,
/// when it comes to it: if as many packets were taken before it as were put in before it, and
/// the task now takes one, that one is sent, with all its bytes.
pub proof fn law_a_packet_put_in_is_the_packet_sent(
    sender: &mut MugonClientSocketSender,
    payload: &[u8],
    address: SocketAddr,
    sent: Result<(), Error>,
    task: &mut ClientSendTask,
    action: SendAction,
)
    requires
        call_ensures(MugonClientSocketSender::send, (sender, payload, &address), sent),
        sent is Ok,
        call_ensures(ClientSendTask::poll, (task,), action),
        old(sender).queue() == old(task).packet_queue(),
        old(task).in_order(),
        old(task).packets().len() == old(sender).sent().len(),
        final(task).packets().len() > old(task).packets().len(),
    ensures
        action matches SendAction::Send(packet) && packet@ == payload@,
{
    let n = old(sender).sent().len() as int;
    assert(final(sender).sent()[n] == payload@);
    if old(task).phase() == SendPhase::Streaming {
        law_a_connected_task_sends(task, action);
        assert(final(task).packets()[n]@ == final(sender).sent()[n]);
    }
}

/// What the page hands in from the server is put into the socket's queue, behind what was put in
/// before: bytes, whatever they are and however many, as a packet of these bytes, and nothing as
/// the end of the connection. The id does not matter.
pub proof fn law_what_the_page_hands_in_is_queued(
    handler: &mut OnNewMessage,
    id: u64,
    data: Option<Vec<u8>>,
    done: Result<(), Error>,
)
    requires
        call_ensures(OnNewMessage::call, (handler, id, data), done),
    ensures
        final(handler).queue() == old(handler).queue(),
        final(handler).attempted().len() == old(handler).attempted().len() + 1,
        final(handler).attempted().drop_last() == old(handler).attempted(),
        match data {
            Some(bytes) => final(handler).attempted().last() == Message::Binary(bytes),
            None => final(handler).attempted().last() == Message::Close,
        },
        match done {
            Ok(()) => final(handler).queued() == old(handler).queued().push(
                final(handler).attempted().last(),
            ),
            Err(error) => error == Error::Channel
                && final(handler).queued() == old(handler).queued(),
        },
{
    lemma_pushed(old(handler).attempted(), final(handler).attempted().last());
}

/// What the page hands in is what comes out of the socket, when it comes to it: bytes come out
/// unchanged and with the server's address if they are at most 1472, more are reported by their
/// number, and the end of the connection is nothing.
pub proof fn law_what_the_page_hands_in_comes_out(
    handler: &mut OnNewMessage,
    id: u64,
    data: Option<Vec<u8>>,
    done: Result<(), Error>,
    receiver: &mut MugonClientSocketReceiver,
    packet: Result<Option<(&mut [u8], SocketAddr)>, Error>,
)
    requires
        call_ensures(OnNewMessage::call, (handler, id, data), done),
        done is Ok,
        call_ensures(MugonClientSocketReceiver::recv, (receiver,), packet),
        old(handler).queue() == old(receiver).queue(),
        old(receiver).in_order(),
        old(receiver).taken().len() == old(handler).queued().len(),
        final(receiver).taken().len() > old(receiver).taken().len(),
    ensures
        match data {
            Some(bytes) => if bytes@.len() <= 1472 {
                packet matches Ok(Some((out, addr))) && out@ == bytes@
                    && addr == old(receiver).server_addr()
            } else {
                packet matches Err(Error::PacketTooLong(len)) && len == bytes@.len()
            },
            None => packet matches Ok(None),
        },
{
    let n = old(handler).queued().len() as int;
    assert(final(handler).queued()[n] == final(receiver).taken()[n]);
}

/// Receiving looks into the queue exactly once, takes out what the look has found and nothing
/// else, and tells what it has found.
pub proof fn law_receiving_tells_what_was_found(
    receiver: &mut MugonClientSocketReceiver,
    packet: Result<Option<(&mut [u8], SocketAddr)>, Error>,
)
    requires
        call_ensures(MugonClientSocketReceiver::recv, (receiver,), packet),
    ensures
        final(receiver).queue() == old(receiver).queue(),
        final(receiver).server_addr() == old(receiver).server_addr(),
        final(receiver).looks().len() == old(receiver).looks().len() + 1,
        final(receiver).looks().drop_last() == old(receiver).looks(),
        match final(receiver).looks().last() {
            Ok(message) => final(receiver).taken() == old(receiver).taken().push(message),
            Err(_) => final(receiver).taken() == old(receiver).taken(),
        },
        match final(receiver).looks().last() {
            Ok(Message::Binary(data)) => if data@.len() <= 1472 {
                packet matches Ok(Some((out, addr))) && out@ == data@
                    && addr == old(receiver).server_addr()
            } else {
                packet matches Err(Error::PacketTooLong(len)) && len == data@.len()
            },
            Ok(Message::Close) => packet matches Ok(None),
            Err(NotReceived::Empty) => packet matches Ok(None),
            Err(NotReceived::Disconnected(_)) => packet matches Err(
                Error::Io(IoError::Other(text)),
            ) && text@ == "unable to receive message from client: "@
                + "receiving on a closed channel"@,
        },
{
    lemma_grown(old(receiver).looks(), final(receiver).looks());
}

/// What a result of the queue means, whatever the result.
pub proof fn law_a_result_of_the_queue_is_told(
    receiver: &mut MugonClientSocketReceiver,
    received: Look<Message>,
    packet: Result<Option<(&mut [u8], SocketAddr)>, Error>,
)
    requires
        call_ensures(MugonClientSocketReceiver::receive, (receiver, received), packet),
    ensures
        match received {
            Ok(Message::Binary(data)) => packet matches Ok(Some((out, addr))) && out@ == data@
                && addr == old(receiver).server_addr(),
            Ok(Message::Close) => packet matches Ok(None),
            Err(NotReceived::Empty) => packet matches Ok(None),
            Err(NotReceived::Disconnected(reason)) => packet matches Err(
                Error::Io(IoError::Other(text)),
            ) && text@ == "unable to receive message from client: "@ + reason@,
        },
        final(receiver).taken() == old(receiver).taken(),
        final(receiver).looks() == old(receiver).looks(),
        final(receiver).queue() == old(receiver).queue(),
        final(receiver).server_addr() == old(receiver).server_addr(),
{
}

/// How the connection attempt has ended is reported, success as a connection and failure as the
/// lack of one; and if the report is taken, the task is told the same, and only then.
pub proof fn law_the_end_of_the_attempt_is_told(
    handler: &mut OnNewConnection,
    success: bool,
    done: Result<(), Error>,
)
    requires
        call_ensures(OnNewConnection::call, (handler, success), done),
    ensures
        final(handler).status_queue() == old(handler).status_queue(),
        final(handler).connected_queue() == old(handler).connected_queue(),
        success ==> final(handler).report_attempts() == old(handler).report_attempts().push(
            ClientIoEvent::Connected,
        ),
        !success ==> final(handler).report_attempts() == old(handler).report_attempts().push(
            ClientIoEvent::Disconnected(Error::NotConnected),
        ),
        final(handler).reported() == old(handler).reported() || final(handler).reported()
            == old(handler).reported().push(final(handler).report_attempts().last()),
        final(handler).reported() == old(handler).reported() ==> done is Err
            && final(handler).signal_attempts() == old(handler).signal_attempts(),
        final(handler).reported() != old(handler).reported() ==> final(handler).signal_attempts()
            == old(handler).signal_attempts().push(success),
        done is Ok ==> final(handler).signalled() == old(handler).signalled().push(success),
        done is Err ==> done == Err::<(), Error>(Error::Channel) && final(handler).signalled()
            == old(handler).signalled(),
{
    lemma_grown(old(handler).reported(), final(handler).reported());
}

/// That the server is gone is reported as a request of the user, whatever the id.
pub proof fn law_the_loss_of_the_server_is_told(
    handler: &mut OnDisconnected,
    id: u64,
    done: Result<(), Error>,
)
    requires
        call_ensures(OnDisconnected::call, (handler, id), done),
    ensures
        ({
            let event = ClientIoEvent::Disconnected(Error::UserRequest);
            &&& final(handler).status_queue() == old(handler).status_queue()
            &&& final(handler).report_attempts() == old(handler).report_attempts().push(event)
            &&& done is Ok ==> final(handler).reported() == old(handler).reported().push(event)
            &&& done is Err ==> done == Err::<(), Error>(Error::Channel)
                && final(handler).reported() == old(handler).reported()
        }),
{
}

/// A client's socket has the loopback address without a port, and its two ends are the ones that
/// it was made with.
pub proof fn law_a_socket_hands_out_its_ends(
    socket: MugonClientSocket,
    addr: SocketAddr,
    ends: (MugonClientSocketSender, MugonClientSocketReceiver),
)
    requires
        call_ensures(MugonClientSocket::local_addr, (&socket,), addr),
        call_ensures(MugonClientSocket::split, (socket,), ends),
    ensures
        addr matches SocketAddr::V4(a) && a.ip == 0x7f00_0001 && a.port == 0,
        ends.0 == socket.sender(),
        ends.1 == socket.receiver(),
{
}

/// A log that a value was pushed to has that value at its end, behind what was there.
proof fn lemma_pushed<T>(before: Seq<T>, value: T)
    ensures
        before.push(value).drop_last() == before,
        before.push(value).last() == value,
        before.push(value).len() == before.len() + 1,
{
    assert(before.push(value).drop_last() =~= before);
}

}
