use bytes::Bytes;
use netprobe::protocols::address::SocketAddress;
use netprobe::protocols::common::MessageDirection;
use netprobe::protocols::common::MessageType;
use netprobe::protocols::engine::ServerEngine;
use netprobe::protocols::tasks::AcceptAction;
use netprobe::protocols::tasks::AcceptEvent;
use netprobe::protocols::tasks::AcceptLoop;
use netprobe::protocols::tasks::AcceptPhase;
use netprobe::protocols::tasks::PeerReader;
use netprobe::protocols::tasks::PeerWriter;
use netprobe::protocols::tasks::ReadEvent;
use netprobe::protocols::tasks::ReaderAction;
use netprobe::protocols::tasks::ReaderPhase;
use netprobe::protocols::tasks::WriteEvent;
use netprobe::protocols::tasks::WriterAction;

fn addr(port: u16) -> SocketAddress {
    SocketAddress::v4(10, 0, 0, 1, port)
}

fn session(id: &str) -> (ServerEngine, PeerReader) {
    let mut engine = ServerEngine::new();
    let accepted = engine.register_peer(addr(7), id.to_string());
    (engine, accepted.reader)
}

#[test]
fn a_new_reader_is_open_and_knows_its_peer() {
    let (_engine, reader) = session("10.0.0.1:7");
    assert_eq!(reader.phase(), ReaderPhase::Open);
    assert!(!reader.is_closed());
    assert_eq!(reader.peer().connection_id, "10.0.0.1:7");
    assert_eq!(reader.peer().remote_addr, addr(7));
}

#[test]
fn a_chunk_becomes_a_received_text_message() {
    let (_engine, mut reader) = session("p");
    match reader.on_read(ReadEvent::Chunk(b"hello")) {
        ReaderAction::Forward(m) => {
            assert_eq!(m.direction, MessageDirection::Received);
            assert!(matches!(m.content, MessageType::Text(ref t) if t == "hello"));
            assert_eq!(m.connection_info.as_ref().unwrap().connection_id, "p");
            assert_eq!(m.connection_info.as_ref().unwrap().remote_addr, addr(7));
        }
        _ => panic!("expected a message"),
    }
    assert_eq!(reader.phase(), ReaderPhase::Open);
}

#[test]
fn bytes_that_are_not_text_are_decoded_with_replacements() {
    let (_engine, mut reader) = session("p");
    match reader.on_read(ReadEvent::Chunk(&[0x61, 0xff, 0xfe, 0x62])) {
        ReaderAction::Forward(m) => {
            assert!(matches!(m.content, MessageType::Text(ref t) if t == "a\u{fffd}\u{fffd}b"));
        }
        _ => panic!("expected a message"),
    }
}

#[test]
fn end_of_stream_asks_for_the_session_to_be_closed() {
    let (mut engine, mut reader) = session("p");
    assert!(matches!(reader.on_read(ReadEvent::Chunk(b"x")), ReaderAction::Forward(_)));
    assert!(matches!(reader.on_read(ReadEvent::Chunk(b"")), ReaderAction::Close));
    assert_eq!(reader.phase(), ReaderPhase::Ended);
    assert!(matches!(reader.on_read(ReadEvent::Chunk(b"late")), ReaderAction::Close));
    assert!(matches!(reader.on_read(ReadEvent::Failed), ReaderAction::Close));
    assert_eq!(engine.get_connections().len(), 1);
    let notice = engine.close_peer(&mut reader).unwrap();
    assert!(matches!(notice.content, MessageType::ClientDisconnected));
    assert_eq!(engine.get_connections().len(), 0);
    assert!(matches!(reader.on_read(ReadEvent::Chunk(b"later")), ReaderAction::Idle));
    assert!(matches!(reader.on_read(ReadEvent::Failed), ReaderAction::Idle));
    assert!(engine.close_peer(&mut reader).is_none());
}

#[test]
fn a_failed_read_ends_the_session_like_end_of_stream() {
    let (mut engine, mut reader) = session("p");
    assert!(matches!(reader.on_read(ReadEvent::Failed), ReaderAction::Close));
    assert_eq!(reader.phase(), ReaderPhase::Ended);
    let notice = engine.close_peer(&mut reader).unwrap();
    assert!(matches!(notice.content, MessageType::ClientDisconnected));
    assert_eq!(notice.connection_info.unwrap().connection_id, "p");
    assert!(engine.get_connections().is_empty());
}

#[test]
fn messages_of_a_session_are_bracketed_by_its_notices() {
    let mut engine = ServerEngine::new();
    let accepted = engine.register_peer(addr(7), "p".to_string());
    let mut reader = accepted.reader;
    let mut log = vec!["connected"];
    assert!(matches!(accepted.notice.content, MessageType::ClientConnected));
    let chunks: [&[u8]; 6] = [b"a", b"b", b"", b"c", b"", b"d"];
    for chunk in chunks {
        match reader.on_read(ReadEvent::Chunk(chunk)) {
            ReaderAction::Forward(_) => log.push("received"),
            ReaderAction::Close => {
                if engine.close_peer(&mut reader).is_some() {
                    log.push("disconnected");
                }
            }
            ReaderAction::Idle => {}
        }
    }
    assert_eq!(log, vec!["connected", "received", "received", "disconnected"]);
}

#[test]
fn the_writer_writes_what_it_is_given_until_it_ends() {
    let mut writer = PeerWriter::new();
    assert!(!writer.is_finished());
    match writer.on_event(WriteEvent::Dequeued(Bytes::from_static(b"abc"))) {
        WriterAction::Write(bytes) => assert_eq!(bytes, Bytes::from_static(b"abc")),
        WriterAction::Finish => panic!("expected a write"),
    }
    assert!(!writer.is_finished());
    assert!(matches!(writer.on_event(WriteEvent::WriteFailed), WriterAction::Finish));
    assert!(writer.is_finished());
    assert!(matches!(
        writer.on_event(WriteEvent::Dequeued(Bytes::from_static(b"late"))),
        WriterAction::Finish
    ));
    let mut other = PeerWriter::new();
    assert!(matches!(other.on_event(WriteEvent::QueueClosed), WriterAction::Finish));
    assert!(other.is_finished());
}

#[test]
fn the_accept_loop_serves_connections_while_listening() {
    let mut accept = AcceptLoop::new();
    assert_eq!(accept.phase(), AcceptPhase::Listening);
    match accept.on_event(AcceptEvent::Incoming { addr: addr(1), id: "one".to_string() }) {
        AcceptAction::Serve { addr: a, id } => {
            assert_eq!(a, addr(1));
            assert_eq!(id, "one");
        }
        _ => panic!("expected to serve"),
    }
    assert!(matches!(accept.on_event(AcceptEvent::AcceptFailed), AcceptAction::Continue));
    assert_eq!(accept.phase(), AcceptPhase::Listening);
}

#[test]
fn the_accept_loop_exits_once() {
    let mut accept = AcceptLoop::new();
    let mut exits = 0;
    let events = vec![
        AcceptEvent::AcceptFailed,
        AcceptEvent::StopRequested,
        AcceptEvent::StopRequested,
        AcceptEvent::ControlClosed,
        AcceptEvent::Incoming { addr: addr(1), id: "late".to_string() },
        AcceptEvent::AcceptFailed,
    ];
    let mut after_exit = Vec::new();
    for event in events {
        let action = accept.on_event(event);
        if matches!(action, AcceptAction::Exit) {
            exits += 1;
        } else if exits > 0 {
            after_exit.push(matches!(action, AcceptAction::Idle));
        }
    }
    assert_eq!(exits, 1);
    assert_eq!(after_exit, vec![true, true, true, true]);
    assert_eq!(accept.phase(), AcceptPhase::Exited);
}

#[test]
fn a_closed_control_queue_stops_the_loop_like_a_signal() {
    let mut accept = AcceptLoop::new();
    assert!(matches!(accept.on_event(AcceptEvent::ControlClosed), AcceptAction::Exit));
    assert_eq!(accept.phase(), AcceptPhase::Exited);
    assert!(matches!(accept.on_event(AcceptEvent::StopRequested), AcceptAction::Idle));
}
