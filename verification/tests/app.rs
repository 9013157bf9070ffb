use bytes::Bytes;
use netprobe::app::App;
use netprobe::app::CONTROL;
use netprobe::app::InputMode;
use netprobe::app::Key;
use netprobe::app::LoopAction;
use netprobe::app::Modifiers;
use netprobe::app::NO_MODIFIERS;
use netprobe::app::Stats;
use netprobe::app::TerminalEvent;
use netprobe::app::poll_timeout;
use netprobe::app::tick_is_due;
use netprobe::cli::args::AppMode;
use netprobe::cli::args::Args;
use netprobe::cli::args::ProtocolType;
use netprobe::protocols::address::SocketAddress;
use netprobe::protocols::common::ConnectionInfo;
use netprobe::protocols::common::Message;
use netprobe::protocols::common::MessageType;
use netprobe::ui::layout::AppLayout;
use netprobe::ui::layout::LayoutType;
use netprobe::ui::widgets::status_bar::StatusBar;
use std::time::Instant;

fn args(protocol: ProtocolType, mode: AppMode, vertical_layout: bool) -> Args {
    Args {
        vertical_layout,
        protocol,
        mode,
        local_addr: SocketAddress::loopback(8000),
        remote_addr: None,
        http_args: None,
    }
}

fn app() -> App {
    App::new(args(ProtocolType::Tcp, AppMode::Server, false)).unwrap()
}

fn plain() -> Modifiers {
    Modifiers { bits: NO_MODIFIERS }
}

fn control() -> Modifiers {
    Modifiers { bits: CONTROL }
}

fn press(app: &mut App, key: Key) {
    app.handle_key_event_at(key, plain(), "12:00:00", Instant::now()).unwrap();
}

fn type_text(app: &mut App, text: &str) {
    for c in text.chars() {
        press(app, Key::Char(c));
    }
}

#[test]
fn a_new_app_is_idle() {
    let app = app();
    assert!(!app.should_quit);
    assert_eq!(app.input_mode, InputMode::Normal);
    assert_eq!(app.layout.layout_type, LayoutType::HorizontalSplit);
    assert_eq!(app.send_view.title(), "TCP Server Send");
    assert_eq!(app.receive_view.title(), "TCP Server Receive");
    assert!(app.send_view.messages().is_empty());
    assert!(app.receive_view.messages().is_empty());
    assert!(app.input_dialog.is_none());
    assert_eq!(app.stats.sent_bytes, 0);
    assert_eq!(app.stats.received_bytes, 0);
    assert!(!app.stats.connected);
    assert_eq!(app.args.protocol, ProtocolType::Tcp);
    assert_eq!(app.loop_action(), LoopAction::Continue);
}

#[test]
fn pane_titles_for_every_protocol_and_mode() {
    let cases = [
        (ProtocolType::Tcp, "TCP"),
        (ProtocolType::Udp, "UDP"),
        (ProtocolType::WebSocket, "WebSocket"),
        (ProtocolType::Http, "HTTP"),
        (ProtocolType::Http2, "HTTP/2"),
        (ProtocolType::Http3, "HTTP/3"),
    ];
    for (protocol, name) in cases {
        let server = App::new(args(protocol, AppMode::Server, true)).unwrap();
        assert_eq!(server.send_view.title(), format!("{} Server Send", name));
        assert_eq!(server.receive_view.title(), format!("{} Server Receive", name));
        assert_eq!(server.layout.layout_type, LayoutType::VerticalSplit);
        let client = App::new(args(protocol, AppMode::Client, false)).unwrap();
        assert_eq!(client.send_view.title(), format!("{} Client Send", name));
        assert_eq!(client.receive_view.title(), format!("{} Client Receive", name));
    }
}

#[test]
fn control_c_quits() {
    let mut app = app();
    app.handle_key_event(Key::Char('c'), control()).unwrap();
    assert!(app.should_quit);
    assert_eq!(app.input_mode, InputMode::Normal);
    assert_eq!(app.loop_action(), LoopAction::Exit);
}

#[test]
fn c_with_other_modifiers_does_not_quit() {
    let mut app = app();
    app.handle_key_event(Key::Char('c'), plain()).unwrap();
    app.handle_key_event(Key::Char('c'), Modifiers { bits: CONTROL | 1 }).unwrap();
    app.handle_key_event(Key::Char('C'), control()).unwrap();
    app.handle_key_event(Key::Enter, control()).unwrap();
    assert!(!app.should_quit);
    assert!(app.input_dialog.is_none());
}

#[test]
fn i_opens_the_dialog() {
    let mut app = app();
    app.handle_key_event(Key::Char('i'), control()).unwrap();
    assert_eq!(app.input_mode, InputMode::Normal);
    app.handle_key_event(Key::Char('i'), plain()).unwrap();
    assert_eq!(app.input_mode, InputMode::Editing);
    let dialog = app.input_dialog.as_ref().unwrap();
    assert_eq!(dialog.input, "");
    assert!(dialog.clients.is_empty());
    assert!(!app.should_quit);
}

#[test]
fn typing_and_erasing() {
    let mut app = app();
    press(&mut app, Key::Char('i'));
    type_text(&mut app, "hic");
    assert_eq!(app.input_dialog.as_ref().unwrap().input, "hic");
    press(&mut app, Key::Backspace);
    assert_eq!(app.input_dialog.as_ref().unwrap().input, "hi");
    press(&mut app, Key::Other);
    assert_eq!(app.input_dialog.as_ref().unwrap().input, "hi");
    press(&mut app, Key::Backspace);
    press(&mut app, Key::Backspace);
    press(&mut app, Key::Backspace);
    assert_eq!(app.input_dialog.as_ref().unwrap().input, "");
    assert_eq!(app.input_mode, InputMode::Editing);
    app.handle_key_event_at(Key::Char('c'), control(), "t", Instant::now()).unwrap();
    assert!(!app.should_quit);
    assert_eq!(app.input_dialog.as_ref().unwrap().input, "c");
}

#[test]
fn escape_closes_the_dialog_and_sends_nothing() {
    let mut app = app();
    press(&mut app, Key::Char('i'));
    type_text(&mut app, "draft");
    press(&mut app, Key::Esc);
    assert_eq!(app.input_mode, InputMode::Normal);
    assert!(app.input_dialog.is_none());
    assert!(app.send_view.messages().is_empty());
    assert_eq!(app.stats.sent_bytes, 0);
}

#[test]
fn enter_sends_what_was_typed() {
    let mut app = app();
    press(&mut app, Key::Char('i'));
    type_text(&mut app, "h\u{e9}llo");
    let now = Instant::now();
    app.handle_key_event_at(Key::Enter, plain(), "09:15:00", now).unwrap();
    assert_eq!(app.input_mode, InputMode::Normal);
    assert!(app.input_dialog.is_none());
    assert_eq!(*app.send_view.messages(), vec!["[09:15:00] h\u{e9}llo"]);
    assert_eq!(app.stats.sent_bytes, 6);
    assert_eq!(app.stats.last_activity, now);
    assert!(app.receive_view.messages().is_empty());
    assert_eq!(app.stats.received_bytes, 0);
}

#[test]
fn enter_on_an_empty_dialog_sends_nothing() {
    let mut app = app();
    press(&mut app, Key::Char('i'));
    press(&mut app, Key::Enter);
    assert_eq!(app.input_mode, InputMode::Normal);
    assert!(app.input_dialog.is_none());
    assert!(app.send_view.messages().is_empty());
    assert_eq!(app.stats.sent_bytes, 0);
}

#[test]
fn editing_without_a_dialog_ignores_keys() {
    let mut app = app();
    app.input_mode = InputMode::Editing;
    press(&mut app, Key::Esc);
    press(&mut app, Key::Enter);
    press(&mut app, Key::Char('x'));
    assert_eq!(app.input_mode, InputMode::Editing);
    assert!(app.input_dialog.is_none());
    assert!(app.send_view.messages().is_empty());
}

#[test]
fn the_clock_line_has_the_time_of_day() {
    let mut app = app();
    press(&mut app, Key::Char('i'));
    type_text(&mut app, "x");
    app.handle_key_event(Key::Enter, plain()).unwrap();
    let line = &app.send_view.messages()[0];
    let bytes = line.as_bytes();
    assert_eq!(line.len(), 12);
    assert_eq!(bytes[0], b'[');
    assert_eq!(bytes[3], b':');
    assert_eq!(bytes[6], b':');
    assert_eq!(&line[9..], "] x");
    assert_eq!(app.stats.sent_bytes, 1);
}

#[test]
fn received_messages_are_shown_with_their_sender() {
    let mut app = app();
    let now = Instant::now();
    app.add_received_message_at("ping".to_string(), Some("10.0.0.1:5".to_string()), "01:02:03", now);
    app.add_received_message_at("pong".to_string(), None, "01:02:04", now);
    assert_eq!(
        *app.receive_view.messages(),
        vec!["[01:02:03] [10.0.0.1:5] ping", "[01:02:04] pong"]
    );
    assert_eq!(app.stats.received_bytes, 8);
    assert_eq!(app.stats.sent_bytes, 0);
    assert_eq!(app.stats.last_activity, now);
    assert!(app.send_view.messages().is_empty());
    app.add_received_message("".to_string(), Some("p".to_string()));
    assert_eq!(app.receive_view.messages().len(), 3);
    assert!(app.receive_view.messages()[2].ends_with("] [p] "));
    assert_eq!(app.stats.received_bytes, 8);
}

#[test]
fn messages_from_a_handler_are_shown_by_their_display_text() {
    let mut app = app();
    let now = Instant::now();
    let peer = ConnectionInfo {
        remote_addr: SocketAddress::loopback(1),
        connection_id: "127.0.0.1:1".to_string(),
    };
    let notice = Message::new_received(MessageType::ClientConnected, Some(peer.clone()));
    app.receive_message_at(notice, "10:00:00", now);
    let data = Message::new_received(MessageType::Text("hi".to_string()), Some(peer.clone()));
    app.receive_message_at(data, "10:00:01", now);
    let raw = Message::new_received(MessageType::Binary(Bytes::from_static(&[1, 171])), None);
    app.receive_message_at(raw, "10:00:02", now);
    let gone = Message::new_received(MessageType::ClientDisconnected, Some(peer));
    app.receive_message(gone);
    let lines = app.receive_view.messages();
    assert_eq!(lines[0], "[10:00:00] [127.0.0.1:1] client connected");
    assert_eq!(lines[1], "[10:00:01] [127.0.0.1:1] hi");
    assert_eq!(lines[2], "[10:00:02] 01 AB");
    assert!(lines[3].ends_with("] [127.0.0.1:1] client disconnected"));
    assert_eq!(app.stats.received_bytes, 16 + 2 + 5 + 19);
}

#[test]
fn display_texts() {
    assert_eq!(MessageType::Text("a b".to_string()).display_text(), "a b");
    assert_eq!(MessageType::Hex("0a 0B".to_string()).display_text(), "0a 0B");
    assert_eq!(MessageType::Binary(Bytes::from_static(&[0, 255])).display_text(), "00 FF");
    assert_eq!(MessageType::Binary(Bytes::new()).display_text(), "");
    assert_eq!(MessageType::ClientConnected.display_text(), "client connected");
    assert_eq!(MessageType::ClientDisconnected.display_text(), "client disconnected");
}

#[test]
fn counters_stop_at_the_largest_number() {
    let mut app = app();
    app.stats.received_bytes = usize::MAX - 2;
    app.add_received_message_at("abcd".to_string(), None, "t", Instant::now());
    assert_eq!(app.stats.received_bytes, usize::MAX);
    app.stats.sent_bytes = usize::MAX - 1;
    press(&mut app, Key::Char('i'));
    type_text(&mut app, "a");
    press(&mut app, Key::Enter);
    assert_eq!(app.stats.sent_bytes, usize::MAX);
    app.stats.sent_bytes = usize::MAX - 1;
    press(&mut app, Key::Char('i'));
    type_text(&mut app, "ab");
    press(&mut app, Key::Enter);
    assert_eq!(app.stats.sent_bytes, usize::MAX);
}

#[test]
fn set_connected_changes_only_the_flag() {
    let mut app = app();
    app.set_connected(true);
    assert!(app.stats.connected);
    assert_eq!(app.stats.sent_bytes, 0);
    app.set_connected(false);
    assert!(!app.stats.connected);
}

#[test]
fn the_loop_leaves_when_the_app_quits() {
    let mut app = app();
    let now = Instant::now();
    assert_eq!(app.on_terminal_event_at(TerminalEvent::Nothing, "t", now).unwrap(), LoopAction::Continue);
    assert_eq!(app.on_terminal_event_at(TerminalEvent::Other, "t", now).unwrap(), LoopAction::Continue);
    let i = TerminalEvent::KeyPress { key: Key::Char('i'), modifiers: plain() };
    assert_eq!(app.on_terminal_event_at(i, "t", now).unwrap(), LoopAction::Continue);
    assert_eq!(app.input_mode, InputMode::Editing);
    let esc = TerminalEvent::KeyPress { key: Key::Esc, modifiers: plain() };
    assert_eq!(app.on_terminal_event_at(esc, "t", now).unwrap(), LoopAction::Continue);
    let quit = TerminalEvent::KeyPress { key: Key::Char('c'), modifiers: control() };
    assert_eq!(app.on_terminal_event_at(quit, "t", now).unwrap(), LoopAction::Exit);
    assert_eq!(app.on_terminal_event_at(TerminalEvent::Nothing, "t", now).unwrap(), LoopAction::Exit);
}

#[test]
fn poll_timeouts() {
    assert_eq!(poll_timeout(100, 0), 100);
    assert_eq!(poll_timeout(100, 30), 70);
    assert_eq!(poll_timeout(100, 100), 0);
    assert_eq!(poll_timeout(100, 101), 0);
    assert_eq!(poll_timeout(0, 0), 0);
    assert_eq!(poll_timeout(u64::MAX, 1), u64::MAX - 1);
    assert_eq!(poll_timeout(1, u64::MAX), 0);
    assert!(!tick_is_due(100, 99));
    assert!(tick_is_due(100, 100));
    assert!(tick_is_due(100, 101));
    assert!(tick_is_due(0, 0));
}

#[test]
fn status_bar_texts() {
    let bar = StatusBar::default();
    let mut stats = Stats::default();
    assert_eq!(
        bar.top_bar_text(&stats),
        " Sent: 0 bytes | Received: 0 bytes | Status: Disconnected "
    );
    stats.sent_bytes = 1234567890;
    stats.received_bytes = 9;
    stats.connected = true;
    assert_eq!(
        bar.top_bar_text(&stats),
        " Sent: 1234567890 bytes | Received: 9 bytes | Status: Connected "
    );
    stats.sent_bytes = usize::MAX;
    stats.received_bytes = 100;
    assert_eq!(
        bar.top_bar_text(&stats),
        format!(" Sent: {} bytes | Received: 100 bytes | Status: Connected ", usize::MAX)
    );
    assert_eq!(bar.bottom_bar_text(), " Ctrl+C: Quit | I: Input Message ");
}

#[test]
fn layouts() {
    assert_eq!(AppLayout::new(LayoutType::VerticalSplit).layout_type, LayoutType::VerticalSplit);
    assert_eq!(
        AppLayout::new(LayoutType::HorizontalSplit).layout_type,
        LayoutType::HorizontalSplit
    );
}

#[test]
fn terminal_events_are_handled_at_the_clocks_time() {
    let mut app = app();
    let i = TerminalEvent::KeyPress { key: Key::Char('i'), modifiers: plain() };
    assert_eq!(app.on_terminal_event(i).unwrap(), LoopAction::Continue);
    type_text(&mut app, "ok");
    let enter = TerminalEvent::KeyPress { key: Key::Enter, modifiers: plain() };
    assert_eq!(app.on_terminal_event(enter).unwrap(), LoopAction::Continue);
    let line = &app.send_view.messages()[0];
    assert_eq!(line.len(), 13);
    assert_eq!(&line[9..], "] ok");
    assert_eq!(app.on_terminal_event(TerminalEvent::Nothing).unwrap(), LoopAction::Continue);
    assert_eq!(app.on_terminal_event(TerminalEvent::Other).unwrap(), LoopAction::Continue);
    assert_eq!(app.send_view.messages().len(), 1);
    let quit = TerminalEvent::KeyPress { key: Key::Char('c'), modifiers: control() };
    assert_eq!(app.on_terminal_event(quit).unwrap(), LoopAction::Exit);
}
