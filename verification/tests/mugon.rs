use lightyear::transport::address::{SocketAddr, SocketAddrV4, SocketAddrV6};
use lightyear::transport::error::{accepted, Error, IoError};
use lightyear::transport::event::{ClientIoEvent, IoState, ServerIoEvent};
use lightyear::transport::mugon::client::{
    decide_send, serverbound_result, ClientConnection, MugonClientSocketBuilder, SendAction,
    SendPhase,
};
use lightyear::transport::mugon::common::{
    id_to_socket_addr, socket_addr_to_id, Message, YIELD_DELAY,
};
use lightyear::transport::mugon::server::{
    clientbound_result, decide_session, ClientSession, MugonServerBuilder, Outgoing, ServerStart,
    SessionAction, SessionPhase,
};
use lightyear::transport::packet::MTU;
use lightyear::transport::queue::{NotReceived, Refused};

fn io(text: &str) -> Error {
    Error::Io(IoError::Other(text.to_string()))
}

fn connect() -> ClientConnection {
    MugonClientSocketBuilder { server_addr: id_to_socket_addr(7), local_addr: id_to_socket_addr(8) }
        .connect()
        .unwrap()
}

fn start() -> ServerStart {
    MugonServerBuilder { server_addr: id_to_socket_addr(7) }.start().unwrap()
}

#[test]
fn ids_survive_as_addresses() {
    for id in [0u64, 1, 42, 0xdead_beef_0000_0001, u64::MAX] {
        assert_eq!(socket_addr_to_id(&id_to_socket_addr(id)), id);
    }
    assert_eq!(
        id_to_socket_addr(5),
        SocketAddr::V6(SocketAddrV6 { ip: 5, port: 0, flowinfo: 0, scope_id: 0 })
    );
    assert_eq!(YIELD_DELAY, 5);
}

#[test]
fn ids_of_foreign_addresses() {
    let v4 = SocketAddr::V4(SocketAddrV4 { ip: 0x7f00_0001, port: 80 });
    assert_eq!(socket_addr_to_id(&v4), u64::MAX);
    let v6 = SocketAddr::V6(SocketAddrV6 {
        ip: 0x2001_0db8_0000_0000_0000_0000_0000_0009,
        port: 80,
        flowinfo: 1,
        scope_id: 2,
    });
    assert_eq!(socket_addr_to_id(&v6), 9);
    assert_ne!(id_to_socket_addr(9), v6);
}

#[test]
fn client_starts_connected_with_one_server() {
    let connection = connect();
    assert_eq!(connection.state, IoState::Connected);
    assert!(connection.events.is_none());
    assert!(connection.close_tx.is_some());
    assert_eq!(connection.send_task.server_id(), 7);
    assert!(connection.send_task.is_connecting());
    assert_eq!(
        connection.socket.local_addr(),
        SocketAddr::V4(SocketAddrV4 { ip: 0x7f00_0001, port: 0 })
    );
}

#[test]
fn client_receives_packets() {
    let mut connection = connect();
    let (_sender, mut receiver) = connection.socket.split();
    assert!(receiver.recv().unwrap().is_none());
    connection.on_new_message.call(7, Some(vec![1, 2, 3])).unwrap();
    connection.on_new_message.call(7, None).unwrap();
    connection.on_new_message.call(7, Some(vec![4])).unwrap();
    {
        let (packet, addr) = receiver.recv().unwrap().unwrap();
        assert_eq!(packet, &[1, 2, 3]);
        assert_eq!(addr, id_to_socket_addr(7));
    }
    assert!(receiver.recv().unwrap().is_none());
    {
        let (packet, _) = receiver.recv().unwrap().unwrap();
        assert_eq!(packet, &[4]);
    }
    assert!(receiver.recv().unwrap().is_none());
}

#[test]
fn client_receives_packets_up_to_the_limit() {
    let mut connection = connect();
    let (_sender, mut receiver) = connection.socket.split();
    connection.on_new_message.call(7, Some(vec![9; MTU])).unwrap();
    connection.on_new_message.call(7, Some(vec![9; MTU + 1])).unwrap();
    assert_eq!(receiver.recv().unwrap().unwrap().0.len(), MTU);
    assert_eq!(receiver.recv().unwrap_err(), Error::PacketTooLong(MTU + 1));
}

#[test]
fn client_receiver_fails_when_the_queue_is_gone() {
    let connection = connect();
    let (_sender, mut receiver) = connection.socket.split();
    drop(connection.on_new_message);
    assert_eq!(
        receiver.recv().unwrap_err(),
        io("unable to receive message from client: receiving on a closed channel")
    );
    assert!(receiver.receive(Ok(Message::Close)).unwrap().is_none());
    assert!(receiver.receive(Err(NotReceived::Empty)).unwrap().is_none());
    assert_eq!(
        receiver.receive(Err(NotReceived::Disconnected("why".to_string()))).unwrap_err(),
        io("unable to receive message from client: why")
    );
}

#[test]
fn client_sender_fails_when_the_task_is_gone() {
    let connection = connect();
    let (mut sender, _receiver) = connection.socket.split();
    assert!(sender.send(&[1], &id_to_socket_addr(7)).is_ok());
    drop(connection.send_task);
    assert_eq!(
        sender.send(&[1], &id_to_socket_addr(7)).unwrap_err(),
        io("unable to send message to server: SendError { .. }")
    );
}

#[test]
fn client_sends_only_after_the_connection() {
    let connection = connect();
    let (mut sender, _receiver) = connection.socket.split();
    let mut task = connection.send_task;
    sender.send(&[1, 2], &id_to_socket_addr(99)).unwrap();
    sender.send(&[3], &id_to_socket_addr(7)).unwrap();
    assert_eq!(task.poll(), SendAction::Wait);
    task.on_connected(true);
    assert!(!task.is_connecting());
    assert_eq!(task.poll(), SendAction::Send(vec![1, 2]));
    assert!(task.on_sent(true).is_ok());
    assert_eq!(task.poll(), SendAction::Send(vec![3]));
    assert_eq!(task.poll(), SendAction::Wait);
}

#[test]
fn client_task_stops_when_the_connection_fails() {
    let mut task = connect().send_task;
    task.on_connected(false);
    assert_eq!(task.poll(), SendAction::Stop);
    assert_eq!(task.poll(), SendAction::Stop);
}

#[test]
fn client_task_stops_on_request_only() {
    let mut task = connect().send_task;
    task.on_close(ClientIoEvent::Connected);
    assert!(task.is_connecting());
    task.on_close(ClientIoEvent::Disconnected(Error::UserRequest));
    assert_eq!(task.poll(), SendAction::Stop);
}

#[test]
fn client_task_sends_what_is_queued_before_it_stops() {
    let connection = connect();
    let (mut sender, _receiver) = connection.socket.split();
    let mut task = connection.send_task;
    let mut close_tx = connection.close_tx.unwrap();
    task.on_connected(true);
    sender.send(&[1], &id_to_socket_addr(7)).unwrap();
    close_tx.notify(ClientIoEvent::Connected).unwrap();
    close_tx.notify(ClientIoEvent::Disconnected(Error::UserRequest)).unwrap();
    assert_eq!(task.poll(), SendAction::Send(vec![1]));
    assert_eq!(task.poll(), SendAction::Wait);
    assert_eq!(task.poll(), SendAction::Stop);
    drop(task);
    assert_eq!(
        close_tx.notify(ClientIoEvent::Disconnected(Error::UserRequest)),
        Err(Error::Channel)
    );
}

#[test]
fn client_task_can_be_ended_while_it_waits_for_the_connection() {
    let connection = connect();
    let mut task = connection.send_task;
    let mut close_tx = connection.close_tx.unwrap();
    close_tx.notify(ClientIoEvent::Disconnected(Error::NotConnected)).unwrap();
    assert_eq!(task.poll(), SendAction::Stop);
    assert!(!task.is_connecting());
}

#[test]
fn client_task_stops_when_a_packet_is_lost() {
    let connection = connect();
    let (mut sender, _receiver) = connection.socket.split();
    let mut task = connection.send_task;
    for packet in [1, 2, 3, 4] {
        sender.send(&[packet], &id_to_socket_addr(7)).unwrap();
    }
    task.on_connected(true);
    assert_eq!(task.poll(), SendAction::Send(vec![1]));
    assert_eq!(task.on_sent(true), Ok(()));
    assert_eq!(task.poll(), SendAction::Send(vec![2]));
    assert_eq!(task.on_sent(false), Ok(()));
    assert_eq!(task.poll(), SendAction::Stop);
    assert_eq!(task.poll(), SendAction::Stop);
    assert_eq!(
        connection.status_rx.receiver().try_recv(),
        Ok(ClientIoEvent::Disconnected(io("mugon connection was lost")))
    );
    assert!(connection.status_rx.receiver().try_recv().is_err());
}

#[test]
fn client_task_stops_though_nobody_hears_of_the_loss() {
    let connection = connect();
    let mut task = connection.send_task;
    drop(connection.status_rx);
    task.on_connected(true);
    assert_eq!(task.on_sent(false), Err(Error::Channel));
    assert_eq!(task.poll(), SendAction::Stop);
}

#[test]
fn client_connects_and_sends_when_the_page_reports_success() {
    let server_addr =
        SocketAddr::V6(SocketAddrV6 { ip: 7, port: 5000, flowinfo: 0, scope_id: 0 });
    let local_addr = id_to_socket_addr(9);
    let mut connection = MugonClientSocketBuilder { server_addr, local_addr }.connect().unwrap();
    connection.on_new_connection.call(true).unwrap();
    assert_eq!(connection.status_rx.receiver().try_recv(), Ok(ClientIoEvent::Connected));
    drop(connection.status_rx);
    let (mut sender, _receiver) = connection.socket.split();
    let mut task = connection.send_task;
    sender.send(&[1, 2], &local_addr).unwrap();
    sender.send(&[3], &local_addr).unwrap();
    assert!(task.is_connecting());
    let mut sent = Vec::new();
    for _ in 0..6 {
        match task.poll() {
            SendAction::Wait => {}
            SendAction::Send(packet) => {
                sent.push((task.server_id(), packet));
                task.on_sent(true).unwrap();
            }
            SendAction::Stop => panic!("the task has stopped"),
        }
    }
    assert_eq!(sent, vec![(7, vec![1, 2]), (7, vec![3])]);
}

#[test]
fn client_task_stops_when_the_page_reports_failure() {
    let mut connection = connect();
    connection.on_new_connection.call(false).unwrap();
    assert_eq!(
        connection.status_rx.receiver().try_recv(),
        Ok(ClientIoEvent::Disconnected(Error::NotConnected))
    );
    assert_eq!(connection.send_task.poll(), SendAction::Stop);
}

#[test]
fn client_reports_that_the_server_is_gone() {
    let mut connection = connect();
    connection.on_disconnected.call(7).unwrap();
    assert_eq!(
        connection.status_rx.receiver().try_recv(),
        Ok(ClientIoEvent::Disconnected(Error::UserRequest))
    );
}

#[test]
fn client_reports_fail_without_a_listener() {
    let mut connection = connect();
    drop(connection.status_rx);
    assert_eq!(connection.on_new_connection.call(true), Err(Error::Channel));
    assert_eq!(connection.on_new_connection.call(false), Err(Error::Channel));
    assert_eq!(connection.on_disconnected.call(7), Err(Error::Channel));
    assert_eq!(connection.send_task.poll(), SendAction::Wait);
}

#[test]
fn client_message_handler_fails_when_the_socket_is_gone() {
    let mut connection = connect();
    drop(connection.socket);
    assert_eq!(connection.on_new_message.call(7, Some(vec![1])), Err(Error::Channel));
}

#[test]
fn send_decisions() {
    let stop = || Some(ClientIoEvent::Disconnected(Error::UserRequest));
    let connecting = SendPhase::Connecting;
    let streaming = SendPhase::Streaming;
    let stopped = SendPhase::Stopped;
    assert_eq!(decide_send(connecting, stop(), Some(true), None), (stopped, SendAction::Stop));
    assert_eq!(decide_send(connecting, None, Some(true), None), (streaming, SendAction::Wait));
    assert_eq!(decide_send(connecting, None, Some(false), None), (stopped, SendAction::Stop));
    assert_eq!(
        decide_send(connecting, Some(ClientIoEvent::Connected), None, None),
        (connecting, SendAction::Wait)
    );
    assert_eq!(
        decide_send(streaming, stop(), None, Some(vec![5])),
        (streaming, SendAction::Send(vec![5]))
    );
    assert_eq!(decide_send(streaming, stop(), None, None), (stopped, SendAction::Stop));
    assert_eq!(decide_send(streaming, None, None, None), (streaming, SendAction::Wait));
    assert_eq!(
        decide_send(stopped, None, Some(true), Some(vec![5])),
        (stopped, SendAction::Stop)
    );
}

#[test]
fn results_of_the_queues() {
    let refused = || Refused {
        value: vec![1],
        display: "shut".to_string(),
        debug: "Shut".to_string(),
    };
    assert_eq!(serverbound_result(Ok(())), Ok(()));
    assert_eq!(
        serverbound_result(Err(refused())),
        Err(io("unable to send message to server: Shut"))
    );
    assert_eq!(clientbound_result(Ok(())), Ok(()));
    assert_eq!(
        clientbound_result(Err(Refused {
            value: Message::Close,
            display: "shut".to_string(),
            debug: "Shut".to_string(),
        })),
        Err(io("unable to send message to client: shut"))
    );
    assert_eq!(accepted(Ok::<(), u8>(())), Ok(()));
    assert_eq!(accepted(Err::<(), u8>(1)), Err(Error::Channel));
}

#[test]
fn server_starts_up() {
    let start = start();
    assert_eq!(start.state, IoState::Connecting);
    assert!(start.close_tx.is_none());
    assert_eq!(start.own_id, 7);
    assert_eq!(start.socket.local_addr(), id_to_socket_addr(7));
    let events = start.events.unwrap();
    assert_eq!(events.receiver().try_recv(), Ok(ServerIoEvent::ServerConnected));
    assert!(events.receiver().try_recv().is_err());
}

#[test]
fn server_starts_up_at_any_address() {
    let v6 = SocketAddr::V6(SocketAddrV6 { ip: 7, port: 5000, flowinfo: 0, scope_id: 0 });
    let v4 = SocketAddr::V4(SocketAddrV4 { ip: 0x7f00_0001, port: 80 });
    for (server_addr, id) in [(v6, 7), (v4, u64::MAX)] {
        let start = MugonServerBuilder { server_addr }.start().unwrap();
        assert_eq!(start.state, IoState::Connecting);
        assert!(start.close_tx.is_none());
        assert_eq!(start.own_id, id);
        assert_eq!(start.socket.local_addr(), server_addr);
        let events = start.events.unwrap();
        assert_eq!(events.receiver().try_recv(), Ok(ServerIoEvent::ServerConnected));
        assert!(events.receiver().try_recv().is_err());
    }
}

#[test]
fn server_reports_clients_that_are_gone() {
    let mut start = start();
    let events = start.events.unwrap();
    start.status.on_disconnected_from(3).unwrap();
    let mut another = start.status.another();
    another.on_disconnected_from(4).unwrap();
    assert_eq!(events.receiver().try_recv(), Ok(ServerIoEvent::ServerConnected));
    assert_eq!(
        events.receiver().try_recv(),
        Ok(ServerIoEvent::ClientDisconnected(id_to_socket_addr(3)))
    );
    assert_eq!(
        events.receiver().try_recv(),
        Ok(ServerIoEvent::ClientDisconnected(id_to_socket_addr(4)))
    );
    drop(events);
    assert_eq!(start.status.on_disconnected_from(3), Err(Error::Channel));
}

#[test]
fn server_receives_packets_with_the_address_of_the_client() {
    let mut start = start();
    let (_sender, mut receiver) = start.socket.split();
    assert!(receiver.recv().unwrap().is_none());
    start.on_new_message.call(11, vec![1, 2]).unwrap();
    start.on_new_message.call(12, vec![]).unwrap();
    start.on_new_message.call(13, vec![0; MTU + 1]).unwrap();
    {
        let (packet, addr) = receiver.recv().unwrap().unwrap();
        assert_eq!(packet, &[1, 2]);
        assert_eq!(addr, id_to_socket_addr(11));
    }
    {
        let (packet, addr) = receiver.recv().unwrap().unwrap();
        assert_eq!(packet.len(), 0);
        assert_eq!(addr, id_to_socket_addr(12));
    }
    assert_eq!(receiver.recv().unwrap_err(), Error::PacketTooLong(MTU + 1));
    assert!(receiver.receive(Ok((id_to_socket_addr(1), Message::Close))).unwrap().is_none());
    drop(start.on_new_message);
    assert_eq!(
        receiver.recv().unwrap_err(),
        io("unable to receive message from client: receiving on a closed channel")
    );
}

#[test]
fn server_message_handler_fails_when_the_socket_is_gone() {
    let mut start = start();
    drop(start.socket);
    assert_eq!(start.on_new_message.call(11, vec![1]), Err(Error::Channel));
}

#[test]
fn server_sends_to_connected_clients_only() {
    let start = start();
    let (mut sender, _receiver) = start.socket.split();
    let (a, b) = (id_to_socket_addr(1), id_to_socket_addr(2));
    assert_eq!(sender.send(&[1], &a), Err(Error::Io(IoError::UnknownClient(a))));
    let mut session = ClientSession::open(a, &mut sender);
    assert_eq!(session.client_id(), 1);
    assert_eq!(session.poll(), SessionAction::Wait);
    sender.send(&[1], &a).unwrap();
    sender.send(&[2, 3], &a).unwrap();
    assert_eq!(sender.send(&[4], &b), Err(Error::Io(IoError::UnknownClient(b))));
    assert_eq!(session.poll(), SessionAction::Send(vec![1]));
    session.on_sent(true);
    assert_eq!(session.poll(), SessionAction::Send(vec![2, 3]));
    assert!(session.is_open());
    session.on_sent(false);
    assert!(!session.is_open());
    sender.send(&[5], &a).unwrap();
    assert_eq!(session.poll(), SessionAction::Close);
    session.on_sent(false);
    assert_eq!(session.poll(), SessionAction::Finish);
}

#[test]
fn server_send_fails_when_the_session_is_gone() {
    let start = start();
    let (mut sender, _receiver) = start.socket.split();
    let a = id_to_socket_addr(1);
    drop(ClientSession::open(a, &mut sender));
    assert_eq!(
        sender.send(&[1], &a),
        Err(io("unable to send message to client: channel closed"))
    );
}

#[test]
fn server_forgets_a_client_at_the_end_of_its_session() {
    let start = start();
    let events = start.events.unwrap();
    let mut status = start.status;
    let (mut sender, _receiver) = start.socket.split();
    let (a, b) = (id_to_socket_addr(1), id_to_socket_addr(2));
    let session = ClientSession::open(a, &mut sender);
    let mut other = ClientSession::open(b, &mut sender);
    session.finish(&mut sender, &mut status).unwrap();
    assert_eq!(sender.send(&[1], &a), Err(Error::Io(IoError::UnknownClient(a))));
    sender.send(&[1], &b).unwrap();
    assert_eq!(other.poll(), SessionAction::Send(vec![1]));
    assert_eq!(events.receiver().try_recv(), Ok(ServerIoEvent::ServerConnected));
    assert_eq!(events.receiver().try_recv(), Ok(ServerIoEvent::ClientDisconnected(a)));
    drop(events);
    assert_eq!(other.finish(&mut sender, &mut status), Err(Error::Channel));
}

#[test]
fn session_decisions() {
    let (open, closed, ended) = (SessionPhase::Open, SessionPhase::Closed, SessionPhase::Ended);
    assert_eq!(
        decide_session(open, Outgoing::Message(Message::Binary(vec![1]))),
        (open, SessionAction::Send(vec![1]))
    );
    assert_eq!(
        decide_session(open, Outgoing::Message(Message::Close)),
        (closed, SessionAction::Close)
    );
    assert_eq!(decide_session(open, Outgoing::Nothing), (open, SessionAction::Wait));
    assert_eq!(decide_session(open, Outgoing::HungUp), (ended, SessionAction::Close));
    assert_eq!(
        decide_session(closed, Outgoing::Message(Message::Binary(vec![1]))),
        (ended, SessionAction::Close)
    );
    assert_eq!(
        decide_session(ended, Outgoing::Message(Message::Binary(vec![1]))),
        (ended, SessionAction::Finish)
    );
}

#[test]
fn session_closes_on_the_message_and_then_finishes() {
    let start = start();
    let (mut sender, _receiver) = start.socket.split();
    let mut session = ClientSession::open(id_to_socket_addr(1), &mut sender);
    assert_eq!(
        session.on_message(Some(Message::Binary(vec![6]))),
        SessionAction::Send(vec![6])
    );
    assert_eq!(session.on_message(Some(Message::Close)), SessionAction::Close);
    assert_eq!(session.poll(), SessionAction::Close);
    assert_eq!(session.poll(), SessionAction::Finish);
}

#[test]
fn session_closes_when_its_queue_is_gone() {
    let start = start();
    let (mut sender, _receiver) = start.socket.split();
    let mut session = ClientSession::open(id_to_socket_addr(1), &mut sender);
    assert_eq!(session.on_message(None), SessionAction::Close);
    assert!(!session.is_open());
    assert_eq!(session.on_message(None), SessionAction::Finish);
}
