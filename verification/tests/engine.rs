use bytes::Bytes;
use netprobe::protocols::address::SocketAddress;
use netprobe::protocols::channel::Enqueue;
use netprobe::protocols::common::HandlerError;
use netprobe::protocols::common::Message;
use netprobe::protocols::common::MessageDirection;
use netprobe::protocols::common::MessageType;
use netprobe::protocols::engine::BRIDGE_CAPACITY;
use netprobe::protocols::engine::EngineState;
use netprobe::protocols::engine::PEER_QUEUE_CAPACITY;
use netprobe::protocols::engine::Role;
use netprobe::protocols::engine::StartKit;
use netprobe::protocols::engine::ClientEngine;
use netprobe::protocols::engine::ServerEngine;
use netprobe::protocols::engine::delivery_result;
use netprobe::protocols::tasks::ReaderPhase;
use tokio::sync::mpsc::channel;
use tokio::sync::mpsc::error::TryRecvError;

fn addr(port: u16) -> SocketAddress {
    SocketAddress::v4(127, 0, 0, 1, port)
}

fn running() -> (ServerEngine, StartKit) {
    let mut engine = ServerEngine::new();
    engine.begin_start().unwrap();
    let kit = engine.finish_start(Ok(())).unwrap();
    (engine, kit)
}

fn running_client() -> (ClientEngine, StartKit) {
    let mut engine = ClientEngine::new();
    engine.begin_start().unwrap();
    let kit = engine.finish_start(Ok(())).unwrap();
    (engine, kit)
}

fn text(s: &str) -> MessageType {
    MessageType::Text(s.to_string())
}

#[test]
fn new_engine_is_created_and_empty() {
    let engine = ServerEngine::new();
    assert_eq!(engine.state(), EngineState::Created);
    assert_eq!(engine.role(), Role::Server);
    assert_eq!(ClientEngine::new().role(), Role::Client);
    assert!(!engine.is_running());
    assert!(engine.get_connections().is_empty());
    assert!(engine.get_ui_to_server_sender().is_none());
}

#[test]
fn successful_start_leaves_engine_running() {
    let mut engine = ServerEngine::new();
    assert!(engine.begin_start().is_ok());
    assert_eq!(engine.state(), EngineState::Starting);
    assert!(!engine.is_running());
    assert!(engine.finish_start(Ok(())).is_ok());
    assert_eq!(engine.state(), EngineState::Running);
    assert!(engine.is_running());
}

#[test]
fn engine_stays_running_until_stopped() {
    let (mut engine, _kit) = running();
    let a = engine.register_peer(addr(1), "a".to_string());
    assert!(engine.is_running());
    let _ = engine.send_message(text("x"), Some("a".to_string()));
    assert!(engine.is_running());
    let _ = engine.send_message(text("x"), Some("nobody".to_string()));
    assert!(engine.is_running());
    let mut reader = a.reader;
    let _ = engine.close_peer(&mut reader);
    assert!(engine.is_running());
    assert!(engine.begin_start().is_err());
    assert!(engine.finish_start(Ok(())).is_err());
    assert!(engine.is_running());
    let _ = engine.get_connections();
    assert!(engine.is_running());
    engine.stop().unwrap();
    assert!(!engine.is_running());
}

#[test]
fn failed_bind_puts_engine_back_to_created() {
    let mut engine = ServerEngine::new();
    engine.begin_start().unwrap();
    match engine.finish_start(Err("address in use".to_string())) {
        Err(HandlerError::BindOrConnectFailure(reason)) => assert_eq!(reason, "address in use"),
        _ => panic!("expected a bind failure"),
    }
    assert_eq!(engine.state(), EngineState::Created);
    assert!(!engine.is_running());
    assert!(engine.get_ui_to_server_sender().is_none());
    assert!(engine.begin_start().is_ok());
    assert!(engine.finish_start(Ok(())).is_ok());
    assert!(engine.is_running());
}

#[test]
fn begin_start_is_refused_unless_created() {
    let mut engine = ServerEngine::new();
    engine.begin_start().unwrap();
    assert!(matches!(engine.begin_start(), Err(HandlerError::AlreadyStarted)));
    assert_eq!(engine.state(), EngineState::Starting);
    engine.finish_start(Ok(())).unwrap();
    assert!(matches!(engine.begin_start(), Err(HandlerError::AlreadyStarted)));
    assert_eq!(engine.state(), EngineState::Running);
    engine.stop().unwrap();
    assert!(matches!(engine.begin_start(), Err(HandlerError::AlreadyStarted)));
    assert_eq!(engine.state(), EngineState::Stopped);
}

#[test]
fn finish_start_is_refused_unless_starting() {
    let mut engine = ServerEngine::new();
    assert!(matches!(engine.finish_start(Ok(())), Err(HandlerError::NotStarting)));
    assert_eq!(engine.state(), EngineState::Created);
    let (mut engine, _kit) = running();
    assert!(matches!(
        engine.finish_start(Err("late".to_string())),
        Err(HandlerError::NotStarting)
    ));
    assert!(engine.is_running());
    engine.stop().unwrap();
    assert!(matches!(engine.finish_start(Ok(())), Err(HandlerError::NotStarting)));
    assert_eq!(engine.state(), EngineState::Stopped);
}

#[test]
fn stop_sends_the_signal_once_and_is_idempotent() {
    let (mut engine, mut kit) = running();
    assert!(matches!(kit.control.try_recv(), Err(TryRecvError::Empty)));
    assert!(engine.stop().is_ok());
    assert_eq!(engine.state(), EngineState::Stopped);
    assert!(!engine.is_running());
    assert!(matches!(kit.control.try_recv(), Ok(())));
    assert!(matches!(kit.control.try_recv(), Err(TryRecvError::Disconnected)));
    assert!(engine.stop().is_ok());
    assert_eq!(engine.state(), EngineState::Stopped);
    assert!(matches!(kit.control.try_recv(), Err(TryRecvError::Disconnected)));
}

#[test]
fn stop_does_nothing_to_an_engine_that_is_not_running() {
    let mut engine = ServerEngine::new();
    assert!(engine.stop().is_ok());
    assert_eq!(engine.state(), EngineState::Created);
    engine.begin_start().unwrap();
    assert!(engine.stop().is_ok());
    assert_eq!(engine.state(), EngineState::Starting);
}

#[test]
fn the_consumer_can_queue_commands_once_started() {
    let (engine, mut kit) = running();
    let sender = engine.get_ui_to_server_sender().unwrap();
    let command = Message::new_sent(text("hello"), None);
    sender.try_send(command).unwrap();
    let got = kit.commands.try_recv().unwrap();
    assert_eq!(got.direction, MessageDirection::Sent);
    assert!(matches!(got.content, MessageType::Text(ref t) if t == "hello"));
    assert!(matches!(kit.commands.try_recv(), Err(TryRecvError::Empty)));
    assert_eq!(sender.max_capacity(), BRIDGE_CAPACITY);
}

#[test]
fn the_notifier_is_handed_to_the_tasks() {
    let (tx, mut rx) = channel::<Message>(4);
    let mut engine = ServerEngine::new();
    engine.set_server_to_ui_sender(tx);
    engine.begin_start().unwrap();
    let kit = engine.finish_start(Ok(())).unwrap();
    let notifier = kit.notifier.unwrap();
    notifier.try_send(Message::new_received(text("x"), None)).unwrap();
    assert!(rx.try_recv().is_ok());
    let plain = running().1;
    assert!(plain.notifier.is_none());
}

#[test]
fn two_clients_connect_and_one_disconnects() {
    let (mut engine, _kit) = running();
    let first = engine.register_peer(addr(5001), "127.0.0.1:5001".to_string());
    let second = engine.register_peer(addr(5002), "127.0.0.1:5002".to_string());
    assert!(matches!(first.notice.content, MessageType::ClientConnected));
    assert!(matches!(second.notice.content, MessageType::ClientConnected));
    assert_eq!(first.notice.connection_info.as_ref().unwrap().connection_id, "127.0.0.1:5001");
    assert_eq!(first.notice.connection_info.as_ref().unwrap().remote_addr, addr(5001));
    assert_eq!(engine.get_connections().len(), 2);

    let mut reader = first.reader;
    let notice = engine.close_peer(&mut reader).unwrap();
    assert!(matches!(notice.content, MessageType::ClientDisconnected));
    assert_eq!(notice.direction, MessageDirection::Received);
    assert_eq!(notice.connection_info.as_ref().unwrap().connection_id, "127.0.0.1:5001");
    assert_eq!(notice.connection_info.as_ref().unwrap().remote_addr, addr(5001));

    let left = engine.get_connections();
    assert_eq!(left.len(), 1);
    assert_eq!(left[0].connection_id, "127.0.0.1:5002");
    assert_eq!(left[0].remote_addr, addr(5002));

    assert!(engine.close_peer(&mut reader).is_none());
    assert_eq!(engine.get_connections().len(), 1);
    assert_eq!(reader.phase(), ReaderPhase::Closed);
}

#[test]
fn connections_follow_connects_and_disconnects() {
    let (mut engine, _kit) = running();
    let mut readers = Vec::new();
    let mut connects = 0;
    let mut disconnects = 0;
    for port in 0..7u16 {
        let accepted = engine.register_peer(addr(port), format!("peer-{}", port));
        connects += 1;
        readers.push(accepted.reader);
        assert_eq!(engine.get_connections().len(), connects - disconnects);
    }
    for reader in readers.iter_mut().step_by(2) {
        assert!(engine.close_peer(reader).is_some());
        disconnects += 1;
        assert_eq!(engine.get_connections().len(), connects - disconnects);
    }
    let ids: Vec<String> =
        engine.get_connections().into_iter().map(|c| c.connection_id).collect();
    assert_eq!(ids, vec!["peer-1", "peer-3", "peer-5"]);
}

#[test]
fn a_key_in_use_is_taken_over() {
    let (mut engine, _kit) = running();
    let _a = engine.register_peer(addr(1), "a".to_string());
    let _b = engine.register_peer(addr(2), "b".to_string());
    let mut again = engine.register_peer(addr(3), "a".to_string());
    let list = engine.get_connections();
    assert_eq!(list.len(), 2);
    assert_eq!(list[0].connection_id, "a");
    assert_eq!(list[0].remote_addr, addr(3));
    assert_eq!(list[1].connection_id, "b");
    engine.send_message(text("new"), Some("a".to_string())).unwrap();
    assert_eq!(again.outbound.try_recv().unwrap(), Bytes::from_static(b"new"));
}

#[test]
fn send_delivers_to_the_target_only() {
    let (mut engine, _kit) = running();
    let mut a = engine.register_peer(addr(1), "peer-a".to_string());
    let mut b = engine.register_peer(addr(2), "peer-b".to_string());
    engine.send_message(text("hello"), Some("peer-a".to_string())).unwrap();
    assert_eq!(a.outbound.try_recv().unwrap(), Bytes::from_static(b"hello"));
    assert!(matches!(a.outbound.try_recv(), Err(TryRecvError::Empty)));
    assert!(matches!(b.outbound.try_recv(), Err(TryRecvError::Empty)));
}

#[test]
fn send_to_an_unknown_target_is_refused_and_nothing_is_queued() {
    let (mut engine, _kit) = running();
    let mut a = engine.register_peer(addr(1), "peer-a".to_string());
    let mut b = engine.register_peer(addr(2), "peer-b".to_string());
    assert!(matches!(
        engine.send_message(text("hello"), Some("peer-c".to_string())),
        Err(HandlerError::NoSuchConnection)
    ));
    assert!(matches!(
        engine.send_message(text("hello"), None),
        Err(HandlerError::NoSuchConnection)
    ));
    assert!(matches!(
        engine.send_message(text("hello"), Some("PEER-A".to_string())),
        Err(HandlerError::NoSuchConnection)
    ));
    assert!(matches!(a.outbound.try_recv(), Err(TryRecvError::Empty)));
    assert!(matches!(b.outbound.try_recv(), Err(TryRecvError::Empty)));
}

#[test]
fn a_server_that_is_not_running_refuses_every_send() {
    let mut engine = ServerEngine::new();
    assert!(matches!(
        engine.send_message(text("x"), Some("127.0.0.1:9".to_string())),
        Err(HandlerError::NotRunning)
    ));
    assert!(matches!(
        engine.send_message(MessageType::ClientConnected, None),
        Err(HandlerError::NotRunning)
    ));
    assert_eq!(engine.state(), EngineState::Created);
    engine.begin_start().unwrap();
    assert!(matches!(engine.send_message(text("x"), None), Err(HandlerError::NotRunning)));
    let (mut engine, _kit) = running();
    engine.stop().unwrap();
    assert!(matches!(
        engine.send_message(MessageType::Hex("zz".to_string()), Some("a".to_string())),
        Err(HandlerError::NotRunning)
    ));
    assert!(matches!(
        engine.plan_send(&text("x"), &Some("a".to_string())),
        Err(HandlerError::NotRunning)
    ));
}

#[test]
fn the_stop_request_is_handed_out_once() {
    let (mut engine, mut kit) = running();
    let request = engine.take_stop_request().unwrap();
    assert_eq!(engine.state(), EngineState::Stopped);
    assert!(!engine.is_running());
    assert!(matches!(kit.control.try_recv(), Err(TryRecvError::Empty)));
    request.try_send(()).unwrap();
    assert!(matches!(kit.control.try_recv(), Ok(())));
    assert!(engine.take_stop_request().is_none());
    assert!(engine.stop().is_ok());
    drop(request);
    assert!(matches!(kit.control.try_recv(), Err(TryRecvError::Disconnected)));
}

#[test]
fn a_dropped_stop_request_closes_the_control_queue() {
    let (mut engine, mut kit) = running();
    drop(engine.take_stop_request());
    assert!(matches!(kit.control.try_recv(), Err(TryRecvError::Disconnected)));
    assert_eq!(engine.state(), EngineState::Stopped);
}

#[test]
fn an_engine_that_is_not_running_has_no_stop_request() {
    let mut engine = ServerEngine::new();
    assert!(engine.take_stop_request().is_none());
    assert_eq!(engine.state(), EngineState::Created);
    engine.begin_start().unwrap();
    assert!(engine.take_stop_request().is_none());
    assert_eq!(engine.state(), EngineState::Starting);
    assert!(engine.finish_start(Err("no".to_string())).is_err());
    assert!(engine.take_stop_request().is_none());
    assert_eq!(engine.state(), EngineState::Created);
}

#[test]
fn the_engine_keeps_the_control_queue_open_while_it_runs() {
    let (mut engine, mut kit) = running();
    let mut a = engine.register_peer(addr(1), "a".to_string());
    engine.send_message(text("x"), Some("a".to_string())).unwrap();
    let _ = engine.close_peer(&mut a.reader);
    let _ = engine.begin_start();
    let _ = engine.finish_start(Ok(()));
    assert!(matches!(kit.control.try_recv(), Err(TryRecvError::Empty)));
    engine.stop().unwrap();
    assert!(matches!(kit.control.try_recv(), Ok(())));
}

#[test]
fn connections_are_listed_once_each() {
    let (mut engine, _kit) = running();
    for id in ["a", "b", "a", "c", "b", "a"] {
        let _ = engine.register_peer(addr(1), id.to_string());
    }
    let ids: Vec<String> =
        engine.get_connections().into_iter().map(|c| c.connection_id).collect();
    assert_eq!(ids, vec!["a", "b", "c"]);
}

#[test]
fn send_to_a_known_peer_needs_a_running_engine() {
    let mut engine = ServerEngine::new();
    let mut a = engine.register_peer(addr(1), "a".to_string());
    assert!(matches!(
        engine.send_message(text("x"), Some("a".to_string())),
        Err(HandlerError::NotRunning)
    ));
    let (mut engine, _kit) = running();
    let mut b = engine.register_peer(addr(1), "b".to_string());
    engine.stop().unwrap();
    assert!(matches!(
        engine.send_message(text("x"), Some("b".to_string())),
        Err(HandlerError::NotRunning)
    ));
    assert!(matches!(a.outbound.try_recv(), Err(TryRecvError::Empty)));
    assert!(matches!(b.outbound.try_recv(), Err(TryRecvError::Empty)));
}

#[test]
fn send_encodes_each_kind_of_content() {
    let (mut engine, _kit) = running();
    let mut a = engine.register_peer(addr(1), "a".to_string());
    let to_a = || Some("a".to_string());
    engine.send_message(text("h\u{e9}"), to_a()).unwrap();
    assert_eq!(a.outbound.try_recv().unwrap(), Bytes::from_static(&[0x68, 0xc3, 0xa9]));
    engine.send_message(MessageType::Binary(Bytes::from_static(&[0, 255, 7])), to_a()).unwrap();
    assert_eq!(a.outbound.try_recv().unwrap(), Bytes::from_static(&[0, 255, 7]));
    engine.send_message(MessageType::Hex("01 ab FF".to_string()), to_a()).unwrap();
    assert_eq!(a.outbound.try_recv().unwrap(), Bytes::from_static(&[0x01, 0xab, 0xff]));
    engine.send_message(text(""), to_a()).unwrap();
    assert_eq!(a.outbound.try_recv().unwrap(), Bytes::new());
    assert!(matches!(a.outbound.try_recv(), Err(TryRecvError::Empty)));
}

#[test]
fn send_refuses_content_without_bytes() {
    let (mut engine, _kit) = running();
    let mut a = engine.register_peer(addr(1), "a".to_string());
    let to_a = || Some("a".to_string());
    match engine.send_message(MessageType::Hex("0g".to_string()), to_a()) {
        Err(HandlerError::InvalidContent(reason)) => {
            assert_eq!(reason, "Invalid hex characters: 0g")
        }
        _ => panic!("expected invalid content"),
    }
    match engine.send_message(MessageType::Hex("abc".to_string()), to_a()) {
        Err(HandlerError::InvalidContent(reason)) => {
            assert_eq!(reason, "Invalid hex string length")
        }
        _ => panic!("expected invalid content"),
    }
    assert!(matches!(
        engine.send_message(MessageType::ClientConnected, to_a()),
        Err(HandlerError::NothingToSend)
    ));
    assert!(matches!(
        engine.send_message(MessageType::ClientDisconnected, to_a()),
        Err(HandlerError::NothingToSend)
    ));
    assert!(matches!(a.outbound.try_recv(), Err(TryRecvError::Empty)));
}

#[test]
fn send_reports_a_full_queue() {
    let (mut engine, _kit) = running();
    let mut a = engine.register_peer(addr(1), "a".to_string());
    for _ in 0..PEER_QUEUE_CAPACITY {
        engine.send_message(text("x"), Some("a".to_string())).unwrap();
    }
    assert!(matches!(
        engine.send_message(text("y"), Some("a".to_string())),
        Err(HandlerError::ConnectionBusy)
    ));
    assert_eq!(a.outbound.try_recv().unwrap(), Bytes::from_static(b"x"));
    engine.send_message(text("z"), Some("a".to_string())).unwrap();
}

#[test]
fn send_reports_a_closed_queue() {
    let (mut engine, _kit) = running();
    let a = engine.register_peer(addr(1), "a".to_string());
    drop(a.outbound);
    assert!(matches!(
        engine.send_message(text("x"), Some("a".to_string())),
        Err(HandlerError::ConnectionClosed)
    ));
    assert_eq!(engine.get_connections().len(), 1);
}

#[test]
fn delivery_results() {
    assert!(matches!(delivery_result(Enqueue::Queued), Ok(())));
    assert!(matches!(delivery_result(Enqueue::Full), Err(HandlerError::ConnectionBusy)));
    assert!(matches!(delivery_result(Enqueue::Closed), Err(HandlerError::ConnectionClosed)));
}

#[test]
fn plan_send_names_the_peer_and_the_bytes() {
    let (mut engine, _kit) = running();
    let mut a = engine.register_peer(addr(1), "a".to_string());
    let delivery = engine.plan_send(&text("hi"), &Some("a".to_string())).unwrap();
    assert_eq!(delivery.peer(), "a");
    assert_eq!(*delivery.payload(), Bytes::from_static(b"hi"));
    assert!(matches!(a.outbound.try_recv(), Err(TryRecvError::Empty)));
    delivery.dispatch().unwrap();
    assert_eq!(a.outbound.try_recv().unwrap(), Bytes::from_static(b"hi"));
    assert!(matches!(
        engine.plan_send(&text("hi"), &Some("b".to_string())),
        Err(HandlerError::NoSuchConnection)
    ));
}

#[test]
fn a_client_sends_to_its_one_peer_whatever_the_target() {
    let (mut engine, _kit) = running_client();
    assert!(matches!(
        engine.send_message(text("x"), Some("server".to_string())),
        Err(HandlerError::NoSuchConnection)
    ));
    assert!(matches!(engine.send_message(text("x"), None), Err(HandlerError::NoSuchConnection)));
    let mut server = engine.register_peer(addr(80), "server".to_string());
    engine.send_message(text("one"), None).unwrap();
    engine.send_message(text("two"), Some("somebody else".to_string())).unwrap();
    engine.send_message(text("three"), Some("server".to_string())).unwrap();
    assert_eq!(server.outbound.try_recv().unwrap(), Bytes::from_static(b"one"));
    assert_eq!(server.outbound.try_recv().unwrap(), Bytes::from_static(b"two"));
    assert_eq!(server.outbound.try_recv().unwrap(), Bytes::from_static(b"three"));
}

#[test]
fn a_client_that_is_not_running_refuses_to_send() {
    let mut engine = ClientEngine::new();
    assert!(matches!(engine.send_message(text("x"), None), Err(HandlerError::NotRunning)));
    let _server = engine.register_peer(addr(80), "server".to_string());
    assert!(matches!(engine.send_message(text("x"), None), Err(HandlerError::NotRunning)));
}

#[test]
fn a_datagram_registers_its_sender_once() {
    let (mut engine, _kit) = running();
    let first = engine.observe_datagram(addr(9), "127.0.0.1:9".to_string(), b"ping");
    let accepted = first.connected.unwrap();
    assert!(matches!(accepted.notice.content, MessageType::ClientConnected));
    assert!(matches!(first.received.content, MessageType::Text(ref t) if t == "ping"));
    assert_eq!(first.received.direction, MessageDirection::Received);
    assert_eq!(first.received.connection_info.as_ref().unwrap().connection_id, "127.0.0.1:9");
    assert_eq!(engine.get_connections().len(), 1);

    let second = engine.observe_datagram(addr(9), "127.0.0.1:9".to_string(), b"");
    assert!(second.connected.is_none());
    assert!(matches!(second.received.content, MessageType::Text(ref t) if t.is_empty()));
    assert_eq!(engine.get_connections().len(), 1);

    let other = engine.observe_datagram(addr(10), "127.0.0.1:10".to_string(), &[0xff]);
    assert!(other.connected.is_some());
    assert!(matches!(other.received.content, MessageType::Text(ref t) if t == "\u{fffd}"));
    assert_eq!(engine.get_connections().len(), 2);
}
