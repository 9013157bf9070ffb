//! What all handlers have in common: the message model (what one unit of
//! traffic is, whose it is, and what can go wrong when handling it), the
//! contract that every protocol handler keeps, and the dispatcher that
//! builds the handler for a protocol and role.

use bytes::Bytes;
use tokio::sync::mpsc::Sender;
use vstd::prelude::*;
use vstd::string::StringExecFns;

use crate::cli::args::ProtocolType;
use crate::protocols::address::SocketAddress;
use crate::protocols::channel::bytes_contents;
use crate::protocols::channel::bytes_queue_ends;
use crate::protocols::channel::message_queue_ends;
use crate::protocols::channel::signal_queue_ends;
use crate::protocols::channel::bytes_from_vec;
use crate::protocols::channel::bytes_to_vec;
use crate::protocols::engine::Accepted;
use crate::protocols::engine::EngineState;
use crate::protocols::engine::EngineView;
use crate::protocols::engine::Role;
use crate::protocols::engine::StartKit;
use crate::protocols::engine::begin_start_result;
use crate::protocols::engine::finish_start_result;
use crate::protocols::engine::is_notice_about;
use crate::protocols::engine::lists_peers;
use crate::protocols::engine::send_result_fits;
use crate::protocols::http2::Http2ClientHandler;
use crate::protocols::http2::Http2ServerHandler;
use crate::protocols::http3::Http3ClientHandler;
use crate::protocols::http3::Http3ServerHandler;
use crate::protocols::http::HttpClientHandler;
use crate::protocols::http::HttpServerHandler;
use crate::protocols::registry::PeerView;
use crate::protocols::registry::distinct_ids;
use crate::protocols::registry::has_peer;
use crate::protocols::tasks::PeerReader;
use crate::protocols::tasks::ReaderPhase;
use crate::protocols::tasks::ReaderView;
use crate::protocols::tcp::TcpClientHandler;
use crate::protocols::tcp::TcpServerHandler;
use crate::protocols::udp::UdpClientHandler;
use crate::protocols::udp::UdpServerHandler;
use crate::protocols::websocket::WebSocketClientHandler;
use crate::protocols::websocket::WebSocketServerHandler;
use crate::utils::data_format::bytes_to_hex;
use crate::utils::data_format::hex_to_bytes;
use crate::utils::data_format::spec_bytes_to_hex;
use crate::utils::data_format::spec_hex_error;
use crate::utils::data_format::spec_hex_to_bytes;
use crate::utils::data_format::string_to_bytes;
use crate::utils::text::lowercase_text;
use crate::utils::text::same_text;
use crate::utils::text::text_of;
use crate::utils::text::to_lowercase;

verus! {

/// What a message carries.
#[derive(Debug, Clone)]
pub enum MessageType {
    /// Text, sent as its UTF-8 bytes.
    Text(String),
    /// Raw bytes.
    Binary(Bytes),
    /// Bytes written as hexadecimal digits.
    Hex(String),
    /// Notice that a peer has connected. Carries nothing to transmit.
    ClientConnected,
    /// Notice that a peer has gone. Carries nothing to transmit.
    ClientDisconnected,
}

/// Which way a message travelled.
#[derive(Debug, Clone, Copy, PartialEq, Eq, Structural)]
pub enum MessageDirection {
    Received,
    Sent,
}

/// Who a peer is: its address, and the key it is known by while connected.
#[derive(Debug, Clone)]
pub struct ConnectionInfo {
    pub remote_addr: SocketAddress,
    pub connection_id: String,
}

/// A point in time, in milliseconds since the start of 1970 (UTC).
#[derive(Debug, Clone, Copy, PartialEq, Eq, Structural)]
pub struct Timestamp {
    pub millis: i64,
}

/// One unit of traffic, or one notice about a peer.
#[derive(Debug, Clone)]
pub struct Message {
    pub content: MessageType,
    pub direction: MessageDirection,
    pub timestamp: Timestamp,
    pub connection_info: Option<ConnectionInfo>,
}

/// Why a handler refused an operation.
#[derive(Debug, Clone)]
pub enum HandlerError {
    /// Binding or connecting failed; the text is the reason given.
    BindOrConnectFailure(String),
    /// No handler exists for the protocol named.
    UnsupportedProtocol(String),
    /// The target does not name a connected peer.
    NoSuchConnection,
    /// The handler is not running.
    NotRunning,
    /// The peer's outbound queue is full.
    ConnectionBusy,
    /// The peer's outbound queue has been closed by its writer.
    ConnectionClosed,
    /// `begin_start` on a handler that has been started before.
    AlreadyStarted,
    /// `finish_start` on a handler that is not starting.
    NotStarting,
    /// The content cannot be encoded; the text says why.
    InvalidContent(String),
    /// The content is a notice, which has no bytes.
    NothingToSend,
    /// A client that connects to a remote address was given none.
    MissingRemoteAddress,
}

/// A handler as contracts see it.
pub struct HandlerView {
    /// The protocol that the handler speaks.
    pub protocol: ProtocolType,
    /// The address that the handler binds to.
    pub local_addr: SocketAddress,
    /// The address that the handler connects to, for the clients that have
    /// one.
    pub remote_addr: Option<SocketAddress>,
    /// The state of the handler's engine.
    pub engine: EngineView,
}

impl HandlerView {
    /// The name of the handler: that of its protocol and of the role of its
    /// engine, as `protocol_name` gives it.
    pub open spec fn name(self) -> Seq<char> {
        handler_name(self.protocol, self.engine.role == Role::Server)
    }

    /// The same handler with its engine in another state.
    pub open spec fn with_engine(self, engine: EngineView) -> HandlerView {
        HandlerView { engine, ..self }
    }

    /// After `finish_start`: the engine is as `EngineView::finish_start`
    /// says, and a starting handler that was bound goes by the address that
    /// it was bound to.
    pub open spec fn finish_start(self, bound: Result<SocketAddress, String>) -> HandlerView {
        HandlerView {
            local_addr: match bound {
                Ok(actual) => if self.engine.state == EngineState::Starting {
                    actual
                } else {
                    self.local_addr
                },
                Err(_) => self.local_addr,
            },
            engine: self.engine.finish_start(bound is Ok),
            ..self
        }
    }
}

/// What every protocol handler does, whatever its protocol and role.
///
/// A handler never performs network operations and never waits. Starting
/// is in two halves, with binding or connecting done by the caller between
/// them; the background tasks report to the handler what happens on the
/// network, through `register_peer` and `close_peer`.
pub trait ProtocolHandler {
    /// The handler as contracts see it.
    spec fn model(&self) -> HandlerView;

    /// The sending end of the control queue, on which the stop request
    /// goes to the accept loop. The handler holds it from a successful start
    /// until it is stopped.
    spec fn control_sender(&self) -> Option<Sender<()>>;

    /// The sending end of the queue from the consumer to the handler.
    spec fn ui_to_server_sender(&self) -> Option<Sender<Message>>;

    /// The outbound queue of every connected peer, by key.
    spec fn queues(&self) -> Map<Seq<char>, Sender<Bytes>>;

    /// The queue on which the consumer hears of traffic.
    spec fn server_to_ui_sender(&self) -> Option<Sender<Message>>;

    /// First half of starting: a created handler becomes starting; any
    /// other is left alone and the call fails with `AlreadyStarted`.
    fn begin_start(&mut self) -> (r: Result<(), HandlerError>)
        ensures
            final(self).model() == old(self).model().with_engine(
                old(self).model().engine.begin_start(),
            ),
            final(self).ui_to_server_sender() == old(self).ui_to_server_sender(),
            final(self).control_sender() == old(self).control_sender(),
            final(self).queues() == old(self).queues(),
            final(self).server_to_ui_sender() == old(self).server_to_ui_sender(),
            begin_start_result(old(self).model().engine.state, r),
    ;

    /// Second half of starting: told the address that binding or connecting
    /// gave, a starting handler is running when the call returns and goes by
    /// that address from then on (a handler that asked for port 0 learns its
    /// port this way); told that binding or connecting failed, the handler
    /// is back to created and the call fails with `BindOrConnectFailure`. A
    /// handler that is not starting is left alone and the call fails with
    /// `NotStarting`.
    fn finish_start(&mut self, bound: Result<SocketAddress, String>) -> (r: Result<
        StartKit,
        HandlerError,
    >)
        ensures
            final(self).model() == old(self).model().finish_start(bound),
            final(self).server_to_ui_sender() == old(self).server_to_ui_sender(),
            final(self).queues() == old(self).queues(),
            finish_start_result(
                old(self).model().engine.state,
                bound,
                old(self).server_to_ui_sender(),
                r,
            ),
            r is Ok ==> final(self).model().engine.is_running() && final(self)
                .ui_to_server_sender() is Some && final(self).control_sender() is Some,
            r matches Ok(kit) ==> signal_queue_ends(final(self).control_sender().unwrap(), kit.control)
                && message_queue_ends(final(self).ui_to_server_sender().unwrap(), kit.commands),
            old(self).model().engine.state != EngineState::Starting ==> final(self)
                .ui_to_server_sender() == old(self).ui_to_server_sender() && final(self)
                .control_sender() == old(self).control_sender(),
            old(self).model().engine.state == EngineState::Starting && bound is Err ==> final(self)
                .ui_to_server_sender() is None && final(self).control_sender() is None,
    ;

    /// Stops a running handler: the stop request is offered to the control
    /// queue and the handler's end of that queue is dropped, so that the
    /// accept loop leaves. Does nothing to a handler that is not running.
    /// Never fails, and the handler is not running when the call returns.
    fn stop(&mut self) -> (r: Result<(), HandlerError>)
        ensures
            r is Ok,
            final(self).model() == old(self).model().with_engine(old(self).model().engine.stop()),
            !final(self).model().engine.is_running(),
            final(self).ui_to_server_sender() == old(self).ui_to_server_sender(),
            final(self).control_sender() == if old(self).model().engine.is_running() {
                None
            } else {
                old(self).control_sender()
            },
            final(self).queues() == old(self).queues(),
            final(self).server_to_ui_sender() == old(self).server_to_ui_sender(),
    ;

    /// Sends content to a peer without waiting. A handler that is not
    /// running refuses with `NotRunning`; a running one resolves the target
    /// and encodes the content: see `EngineView::send_decision`. The handler
    /// is left as it was.
    fn send_message(&mut self, message: MessageType, target: Option<String>) -> (r: Result<
        (),
        HandlerError,
    >)
        ensures
            final(self).model() == old(self).model(),
            final(self).ui_to_server_sender() == old(self).ui_to_server_sender(),
            final(self).control_sender() == old(self).control_sender(),
            final(self).queues() == old(self).queues(),
            final(self).server_to_ui_sender() == old(self).server_to_ui_sender(),
            send_result_fits(
                old(self).model().engine.send_decision(message, text_of(target)),
                r,
            ),
    ;

    /// A handle on the queue from the consumer to the handler, if there is
    /// one.
    fn get_ui_to_server_sender(&self) -> (sender: Option<Sender<Message>>)
        ensures
            sender == self.ui_to_server_sender(),
    ;

    /// Sets the queue on which the consumer hears of traffic.
    fn set_server_to_ui_sender(&mut self, sender: Sender<Message>)
        ensures
            final(self).model() == old(self).model(),
            final(self).server_to_ui_sender() == Some(sender),
            final(self).ui_to_server_sender() == old(self).ui_to_server_sender(),
            final(self).control_sender() == old(self).control_sender(),
            final(self).queues() == old(self).queues(),
    ;

    /// Whether the handler is running.
    fn is_running(&self) -> (running: bool)
        ensures
            running == self.model().engine.is_running(),
    ;

    /// The connected peers at this moment, in the order of the registry.
    /// Each is listed once, and each has its outbound queue.
    fn get_connections(&self) -> (list: Vec<ConnectionInfo>)
        ensures
            lists_peers(list@, self.model().engine.peers),
            distinct_ids(self.model().engine.peers),
            forall|id: Seq<char>| #[trigger]
                self.queues().dom().contains(id) == has_peer(self.model().engine.peers, id),
    ;

    /// The name of the protocol and role: a handler whose engine is a
    /// server is named as a server, any other as a client.
    fn protocol_name(&self) -> (name: &'static str)
        ensures
            name@ == self.model().name(),
    ;

    /// Whether the handler waits for peers or reaches out to a single one.
    /// The role decides how `send_message` takes its target.
    fn role(&self) -> (role: Role)
        ensures
            role == self.model().engine.role,
    ;

    /// The address that the handler binds to.
    fn local_addr(&self) -> (addr: SocketAddress)
        ensures
            addr == self.model().local_addr,
    ;

    /// The address that the handler connects to, if it has one.
    fn remote_addr(&self) -> (addr: Option<SocketAddress>)
        ensures
            addr == self.model().remote_addr,
    ;

    /// Registers a peer under a key and gives the notice that it has
    /// connected, with what its reader and its writer need.
    fn register_peer(&mut self, addr: SocketAddress, id: String) -> (accepted: Accepted)
        ensures
            final(self).model() == old(self).model().with_engine(
                old(self).model().engine.register(PeerView { id: id@, addr }),
            ),
            final(self).ui_to_server_sender() == old(self).ui_to_server_sender(),
            final(self).control_sender() == old(self).control_sender(),
            final(self).queues() == old(self).queues().insert(id@, final(self).queues()[id@]),
            bytes_queue_ends(final(self).queues()[id@], accepted.outbound),
            final(self).server_to_ui_sender() == old(self).server_to_ui_sender(),
            is_notice_about(accepted.notice, MessageType::ClientConnected, id@, addr),
            accepted.reader@ == (ReaderView { id: id@, addr, phase: ReaderPhase::Open }),
    ;

    /// Closes the session of a peer. The first call for a reader takes the
    /// peer out of the registry and gives the notice that it has gone;
    /// further calls for that reader do nothing.
    fn close_peer(&mut self, reader: &mut PeerReader) -> (notice: Option<Message>)
        ensures
            final(reader)@ == old(reader)@.close(),
            final(self).ui_to_server_sender() == old(self).ui_to_server_sender(),
            final(self).control_sender() == old(self).control_sender(),
            final(self).queues() == if old(reader)@.phase == ReaderPhase::Closed {
                old(self).queues()
            } else {
                old(self).queues().remove(old(reader)@.id)
            },
            final(self).server_to_ui_sender() == old(self).server_to_ui_sender(),
            old(reader)@.phase == ReaderPhase::Closed ==> notice is None && final(self).model()
                == old(self).model(),
            old(reader)@.phase != ReaderPhase::Closed ==> final(self).model() == old(self).model()
                .with_engine(old(self).model().engine.close(old(reader)@.id)) && (
            notice matches Some(m) && is_notice_about(
                m,
                MessageType::ClientDisconnected,
                old(reader)@.id,
                old(reader)@.addr,
            )),
    ;
}

impl Timestamp {
    /// `chrono::Local::now`, as milliseconds since the start of 1970 (UTC).
    /// The value is the clock's: nothing is promised of it.
    #[verifier::external_body]
    pub(crate) fn now() -> Timestamp {
        Timestamp { millis: chrono::Local::now().timestamp_millis() }
    }
}

impl ConnectionInfo {
    /// A copy of this value.
    pub fn duplicate(&self) -> (copy: ConnectionInfo)
        ensures
            copy == *self,
    {
        ConnectionInfo { remote_addr: self.remote_addr, connection_id: self.connection_id.clone() }
    }
}

impl MessageType {
    /// The bytes that sending this content puts on the wire: the UTF-8 bytes
    /// of text, the bytes of a buffer as they are, the bytes that hexadecimal
    /// digits stand for. Malformed hexadecimal and notices have none.
    pub open spec fn spec_payload(self) -> Option<Seq<u8>> {
        match self {
            MessageType::Text(text) => Some(vstd::utf8::encode_utf8(text@)),
            MessageType::Binary(bytes) => Some(bytes_contents(bytes)),
            MessageType::Hex(digits) => spec_hex_to_bytes(digits@),
            MessageType::ClientConnected => None,
            MessageType::ClientDisconnected => None,
        }
    }

    /// The text that stands for the content where messages are listed:
    /// text and hexadecimal digits as they are, raw bytes as hexadecimal,
    /// and a few words for a notice.
    pub open spec fn spec_display_text(self) -> Seq<char> {
        match self {
            MessageType::Text(text) => text@,
            MessageType::Binary(bytes) => spec_bytes_to_hex(bytes_contents(bytes)),
            MessageType::Hex(digits) => digits@,
            MessageType::ClientConnected => "client connected"@,
            MessageType::ClientDisconnected => "client disconnected"@,
        }
    }

    /// The text that stands for the content where messages are listed. See
    /// `spec_display_text`.
    pub fn display_text(&self) -> (text: String)
        ensures
            text@ == self.spec_display_text(),
    {
        match self {
            MessageType::Text(text) => text.clone(),
            MessageType::Binary(bytes) => bytes_to_hex(bytes_to_vec(bytes).as_slice()),
            MessageType::Hex(digits) => digits.clone(),
            MessageType::ClientConnected => String::from_str("client connected"),
            MessageType::ClientDisconnected => String::from_str("client disconnected"),
        }
    }

    /// Whether this content is a notice about a peer rather than traffic.
    pub open spec fn is_notice(self) -> bool {
        self is ClientConnected || self is ClientDisconnected
    }

    /// Why hexadecimal content is malformed, in the words of `hex_to_bytes`.
    pub open spec fn spec_malformed(self) -> Seq<char> {
        match self {
            MessageType::Hex(digits) => spec_hex_error(digits@),
            _ => Seq::empty(),
        }
    }

    /// Encodes the content for the wire. Succeeds exactly where
    /// `spec_payload` is defined; a notice gives `NothingToSend`, malformed
    /// hexadecimal gives `InvalidContent` with the reason.
    pub fn payload(&self) -> (r: Result<Bytes, HandlerError>)
        ensures
            match r {
                Ok(bytes) => self.spec_payload() == Some(bytes_contents(bytes)),
                Err(e) => self.spec_payload() is None && if self.is_notice() {
                    e == HandlerError::NothingToSend
                } else {
                    e matches HandlerError::InvalidContent(reason) && reason@
                        == self.spec_malformed()
                },
            },
    {
        match self {
            MessageType::Text(text) => Ok(bytes_from_vec(string_to_bytes(text.as_str()))),
            MessageType::Binary(bytes) => Ok(bytes.clone()),
            MessageType::Hex(digits) => match hex_to_bytes(digits.as_str()) {
                Ok(bytes) => Ok(bytes_from_vec(bytes)),
                Err(reason) => Err(HandlerError::InvalidContent(reason)),
            },
            MessageType::ClientConnected => Err(HandlerError::NothingToSend),
            MessageType::ClientDisconnected => Err(HandlerError::NothingToSend),
        }
    }
}

impl Message {
    /// A message that came in, stamped with the current time.
    pub fn new_received(content: MessageType, connection_info: Option<ConnectionInfo>) -> (m:
        Message)
        ensures
            m.content == content,
            m.direction == MessageDirection::Received,
            m.connection_info == connection_info,
    {
        Message {
            content,
            direction: MessageDirection::Received,
            timestamp: Timestamp::now(),
            connection_info,
        }
    }

    /// A message that went out, stamped with the current time.
    pub fn new_sent(content: MessageType, connection_info: Option<ConnectionInfo>) -> (m: Message)
        ensures
            m.content == content,
            m.direction == MessageDirection::Sent,
            m.connection_info == connection_info,
    {
        Message {
            content,
            direction: MessageDirection::Sent,
            timestamp: Timestamp::now(),
            connection_info,
        }
    }

    /// Whether the message is about the peer with the given key.
    pub open spec fn concerns(self, id: Seq<char>) -> bool {
        self.connection_info matches Some(info) && info.connection_id@ == id
    }
}

impl HandlerError {
    /// The error in words.
    pub fn describe(&self) -> (text: String)
        ensures
            text@ == self.spec_describe(),
    {
        match self {
            HandlerError::BindOrConnectFailure(reason) => String::from_str(
                "Failed to bind or connect: ",
            ).concat(reason.as_str()),
            HandlerError::UnsupportedProtocol(name) => String::from_str(
                "Unsupported protocol: ",
            ).concat(name.as_str()),
            HandlerError::NoSuchConnection => String::from_str("No such connection"),
            HandlerError::NotRunning => String::from_str("Handler is not running"),
            HandlerError::ConnectionBusy => String::from_str("Connection is busy"),
            HandlerError::ConnectionClosed => String::from_str("Connection is closed"),
            HandlerError::AlreadyStarted => String::from_str("Handler was already started"),
            HandlerError::NotStarting => String::from_str("Handler is not starting"),
            HandlerError::InvalidContent(reason) => String::from_str("Invalid content: ").concat(
                reason.as_str(),
            ),
            HandlerError::NothingToSend => String::from_str("Nothing to send"),
            HandlerError::MissingRemoteAddress => String::from_str("Remote address is missing"),
        }
    }

    /// The text that `describe` returns.
    pub open spec fn spec_describe(self) -> Seq<char> {
        match self {
            HandlerError::BindOrConnectFailure(reason) => "Failed to bind or connect: "@
                + reason@,
            HandlerError::UnsupportedProtocol(name) => "Unsupported protocol: "@ + name@,
            HandlerError::NoSuchConnection => "No such connection"@,
            HandlerError::NotRunning => "Handler is not running"@,
            HandlerError::ConnectionBusy => "Connection is busy"@,
            HandlerError::ConnectionClosed => "Connection is closed"@,
            HandlerError::AlreadyStarted => "Handler was already started"@,
            HandlerError::NotStarting => "Handler is not starting"@,
            HandlerError::InvalidContent(reason) => "Invalid content: "@ + reason@,
            HandlerError::NothingToSend => "Nothing to send"@,
            HandlerError::MissingRemoteAddress => "Remote address is missing"@,
        }
    }
}

/// A handler of any protocol and role.
pub enum Handler {
    TcpServer(TcpServerHandler),
    TcpClient(TcpClientHandler),
    UdpServer(UdpServerHandler),
    UdpClient(UdpClientHandler),
    WebSocketServer(WebSocketServerHandler),
    WebSocketClient(WebSocketClientHandler),
    HttpServer(HttpServerHandler),
    HttpClient(HttpClientHandler),
    Http2Server(Http2ServerHandler),
    Http2Client(Http2ClientHandler),
    Http3Server(Http3ServerHandler),
    Http3Client(Http3ClientHandler),
}

impl ProtocolHandler for Handler {
    closed spec fn model(&self) -> HandlerView {
        match self {
            Handler::TcpServer(h) => h.model(),
            Handler::TcpClient(h) => h.model(),
            Handler::UdpServer(h) => h.model(),
            Handler::UdpClient(h) => h.model(),
            Handler::WebSocketServer(h) => h.model(),
            Handler::WebSocketClient(h) => h.model(),
            Handler::HttpServer(h) => h.model(),
            Handler::HttpClient(h) => h.model(),
            Handler::Http2Server(h) => h.model(),
            Handler::Http2Client(h) => h.model(),
            Handler::Http3Server(h) => h.model(),
            Handler::Http3Client(h) => h.model(),
        }
    }

    closed spec fn control_sender(&self) -> Option<Sender<()>> {
        match self {
            Handler::TcpServer(h) => h.control_sender(),
            Handler::TcpClient(h) => h.control_sender(),
            Handler::UdpServer(h) => h.control_sender(),
            Handler::UdpClient(h) => h.control_sender(),
            Handler::WebSocketServer(h) => h.control_sender(),
            Handler::WebSocketClient(h) => h.control_sender(),
            Handler::HttpServer(h) => h.control_sender(),
            Handler::HttpClient(h) => h.control_sender(),
            Handler::Http2Server(h) => h.control_sender(),
            Handler::Http2Client(h) => h.control_sender(),
            Handler::Http3Server(h) => h.control_sender(),
            Handler::Http3Client(h) => h.control_sender(),
        }
    }

    closed spec fn queues(&self) -> Map<Seq<char>, Sender<Bytes>> {
        match self {
            Handler::TcpServer(h) => h.queues(),
            Handler::TcpClient(h) => h.queues(),
            Handler::UdpServer(h) => h.queues(),
            Handler::UdpClient(h) => h.queues(),
            Handler::WebSocketServer(h) => h.queues(),
            Handler::WebSocketClient(h) => h.queues(),
            Handler::HttpServer(h) => h.queues(),
            Handler::HttpClient(h) => h.queues(),
            Handler::Http2Server(h) => h.queues(),
            Handler::Http2Client(h) => h.queues(),
            Handler::Http3Server(h) => h.queues(),
            Handler::Http3Client(h) => h.queues(),
        }
    }

    closed spec fn ui_to_server_sender(&self) -> Option<Sender<Message>> {
        match self {
            Handler::TcpServer(h) => h.ui_to_server_sender(),
            Handler::TcpClient(h) => h.ui_to_server_sender(),
            Handler::UdpServer(h) => h.ui_to_server_sender(),
            Handler::UdpClient(h) => h.ui_to_server_sender(),
            Handler::WebSocketServer(h) => h.ui_to_server_sender(),
            Handler::WebSocketClient(h) => h.ui_to_server_sender(),
            Handler::HttpServer(h) => h.ui_to_server_sender(),
            Handler::HttpClient(h) => h.ui_to_server_sender(),
            Handler::Http2Server(h) => h.ui_to_server_sender(),
            Handler::Http2Client(h) => h.ui_to_server_sender(),
            Handler::Http3Server(h) => h.ui_to_server_sender(),
            Handler::Http3Client(h) => h.ui_to_server_sender(),
        }
    }

    closed spec fn server_to_ui_sender(&self) -> Option<Sender<Message>> {
        match self {
            Handler::TcpServer(h) => h.server_to_ui_sender(),
            Handler::TcpClient(h) => h.server_to_ui_sender(),
            Handler::UdpServer(h) => h.server_to_ui_sender(),
            Handler::UdpClient(h) => h.server_to_ui_sender(),
            Handler::WebSocketServer(h) => h.server_to_ui_sender(),
            Handler::WebSocketClient(h) => h.server_to_ui_sender(),
            Handler::HttpServer(h) => h.server_to_ui_sender(),
            Handler::HttpClient(h) => h.server_to_ui_sender(),
            Handler::Http2Server(h) => h.server_to_ui_sender(),
            Handler::Http2Client(h) => h.server_to_ui_sender(),
            Handler::Http3Server(h) => h.server_to_ui_sender(),
            Handler::Http3Client(h) => h.server_to_ui_sender(),
        }
    }

    fn begin_start(&mut self) -> (r: Result<(), HandlerError>) {
        match self {
            Handler::TcpServer(h) => h.begin_start(),
            Handler::TcpClient(h) => h.begin_start(),
            Handler::UdpServer(h) => h.begin_start(),
            Handler::UdpClient(h) => h.begin_start(),
            Handler::WebSocketServer(h) => h.begin_start(),
            Handler::WebSocketClient(h) => h.begin_start(),
            Handler::HttpServer(h) => h.begin_start(),
            Handler::HttpClient(h) => h.begin_start(),
            Handler::Http2Server(h) => h.begin_start(),
            Handler::Http2Client(h) => h.begin_start(),
            Handler::Http3Server(h) => h.begin_start(),
            Handler::Http3Client(h) => h.begin_start(),
        }
    }

    fn finish_start(&mut self, bound: Result<SocketAddress, String>) -> (r: Result<
        StartKit,
        HandlerError,
    >) {
        match self {
            Handler::TcpServer(h) => h.finish_start(bound),
            Handler::TcpClient(h) => h.finish_start(bound),
            Handler::UdpServer(h) => h.finish_start(bound),
            Handler::UdpClient(h) => h.finish_start(bound),
            Handler::WebSocketServer(h) => h.finish_start(bound),
            Handler::WebSocketClient(h) => h.finish_start(bound),
            Handler::HttpServer(h) => h.finish_start(bound),
            Handler::HttpClient(h) => h.finish_start(bound),
            Handler::Http2Server(h) => h.finish_start(bound),
            Handler::Http2Client(h) => h.finish_start(bound),
            Handler::Http3Server(h) => h.finish_start(bound),
            Handler::Http3Client(h) => h.finish_start(bound),
        }
    }

    fn stop(&mut self) -> (r: Result<(), HandlerError>) {
        match self {
            Handler::TcpServer(h) => h.stop(),
            Handler::TcpClient(h) => h.stop(),
            Handler::UdpServer(h) => h.stop(),
            Handler::UdpClient(h) => h.stop(),
            Handler::WebSocketServer(h) => h.stop(),
            Handler::WebSocketClient(h) => h.stop(),
            Handler::HttpServer(h) => h.stop(),
            Handler::HttpClient(h) => h.stop(),
            Handler::Http2Server(h) => h.stop(),
            Handler::Http2Client(h) => h.stop(),
            Handler::Http3Server(h) => h.stop(),
            Handler::Http3Client(h) => h.stop(),
        }
    }

    fn send_message(&mut self, message: MessageType, target: Option<String>) -> (r: Result<
        (),
        HandlerError,
    >) {
        match self {
            Handler::TcpServer(h) => h.send_message(message, target),
            Handler::TcpClient(h) => h.send_message(message, target),
            Handler::UdpServer(h) => h.send_message(message, target),
            Handler::UdpClient(h) => h.send_message(message, target),
            Handler::WebSocketServer(h) => h.send_message(message, target),
            Handler::WebSocketClient(h) => h.send_message(message, target),
            Handler::HttpServer(h) => h.send_message(message, target),
            Handler::HttpClient(h) => h.send_message(message, target),
            Handler::Http2Server(h) => h.send_message(message, target),
            Handler::Http2Client(h) => h.send_message(message, target),
            Handler::Http3Server(h) => h.send_message(message, target),
            Handler::Http3Client(h) => h.send_message(message, target),
        }
    }

    fn get_ui_to_server_sender(&self) -> (sender: Option<Sender<Message>>) {
        match self {
            Handler::TcpServer(h) => h.get_ui_to_server_sender(),
            Handler::TcpClient(h) => h.get_ui_to_server_sender(),
            Handler::UdpServer(h) => h.get_ui_to_server_sender(),
            Handler::UdpClient(h) => h.get_ui_to_server_sender(),
            Handler::WebSocketServer(h) => h.get_ui_to_server_sender(),
            Handler::WebSocketClient(h) => h.get_ui_to_server_sender(),
            Handler::HttpServer(h) => h.get_ui_to_server_sender(),
            Handler::HttpClient(h) => h.get_ui_to_server_sender(),
            Handler::Http2Server(h) => h.get_ui_to_server_sender(),
            Handler::Http2Client(h) => h.get_ui_to_server_sender(),
            Handler::Http3Server(h) => h.get_ui_to_server_sender(),
            Handler::Http3Client(h) => h.get_ui_to_server_sender(),
        }
    }

    fn set_server_to_ui_sender(&mut self, sender: Sender<Message>) {
        match self {
            Handler::TcpServer(h) => h.set_server_to_ui_sender(sender),
            Handler::TcpClient(h) => h.set_server_to_ui_sender(sender),
            Handler::UdpServer(h) => h.set_server_to_ui_sender(sender),
            Handler::UdpClient(h) => h.set_server_to_ui_sender(sender),
            Handler::WebSocketServer(h) => h.set_server_to_ui_sender(sender),
            Handler::WebSocketClient(h) => h.set_server_to_ui_sender(sender),
            Handler::HttpServer(h) => h.set_server_to_ui_sender(sender),
            Handler::HttpClient(h) => h.set_server_to_ui_sender(sender),
            Handler::Http2Server(h) => h.set_server_to_ui_sender(sender),
            Handler::Http2Client(h) => h.set_server_to_ui_sender(sender),
            Handler::Http3Server(h) => h.set_server_to_ui_sender(sender),
            Handler::Http3Client(h) => h.set_server_to_ui_sender(sender),
        }
    }

    fn is_running(&self) -> (running: bool) {
        match self {
            Handler::TcpServer(h) => h.is_running(),
            Handler::TcpClient(h) => h.is_running(),
            Handler::UdpServer(h) => h.is_running(),
            Handler::UdpClient(h) => h.is_running(),
            Handler::WebSocketServer(h) => h.is_running(),
            Handler::WebSocketClient(h) => h.is_running(),
            Handler::HttpServer(h) => h.is_running(),
            Handler::HttpClient(h) => h.is_running(),
            Handler::Http2Server(h) => h.is_running(),
            Handler::Http2Client(h) => h.is_running(),
            Handler::Http3Server(h) => h.is_running(),
            Handler::Http3Client(h) => h.is_running(),
        }
    }

    fn get_connections(&self) -> (list: Vec<ConnectionInfo>) {
        match self {
            Handler::TcpServer(h) => h.get_connections(),
            Handler::TcpClient(h) => h.get_connections(),
            Handler::UdpServer(h) => h.get_connections(),
            Handler::UdpClient(h) => h.get_connections(),
            Handler::WebSocketServer(h) => h.get_connections(),
            Handler::WebSocketClient(h) => h.get_connections(),
            Handler::HttpServer(h) => h.get_connections(),
            Handler::HttpClient(h) => h.get_connections(),
            Handler::Http2Server(h) => h.get_connections(),
            Handler::Http2Client(h) => h.get_connections(),
            Handler::Http3Server(h) => h.get_connections(),
            Handler::Http3Client(h) => h.get_connections(),
        }
    }

    fn role(&self) -> (role: Role) {
        match self {
            Handler::TcpServer(h) => h.role(),
            Handler::TcpClient(h) => h.role(),
            Handler::UdpServer(h) => h.role(),
            Handler::UdpClient(h) => h.role(),
            Handler::WebSocketServer(h) => h.role(),
            Handler::WebSocketClient(h) => h.role(),
            Handler::HttpServer(h) => h.role(),
            Handler::HttpClient(h) => h.role(),
            Handler::Http2Server(h) => h.role(),
            Handler::Http2Client(h) => h.role(),
            Handler::Http3Server(h) => h.role(),
            Handler::Http3Client(h) => h.role(),
        }
    }

    fn protocol_name(&self) -> (name: &'static str) {
        match self {
            Handler::TcpServer(h) => h.protocol_name(),
            Handler::TcpClient(h) => h.protocol_name(),
            Handler::UdpServer(h) => h.protocol_name(),
            Handler::UdpClient(h) => h.protocol_name(),
            Handler::WebSocketServer(h) => h.protocol_name(),
            Handler::WebSocketClient(h) => h.protocol_name(),
            Handler::HttpServer(h) => h.protocol_name(),
            Handler::HttpClient(h) => h.protocol_name(),
            Handler::Http2Server(h) => h.protocol_name(),
            Handler::Http2Client(h) => h.protocol_name(),
            Handler::Http3Server(h) => h.protocol_name(),
            Handler::Http3Client(h) => h.protocol_name(),
        }
    }

    fn local_addr(&self) -> (addr: SocketAddress) {
        match self {
            Handler::TcpServer(h) => h.local_addr(),
            Handler::TcpClient(h) => h.local_addr(),
            Handler::UdpServer(h) => h.local_addr(),
            Handler::UdpClient(h) => h.local_addr(),
            Handler::WebSocketServer(h) => h.local_addr(),
            Handler::WebSocketClient(h) => h.local_addr(),
            Handler::HttpServer(h) => h.local_addr(),
            Handler::HttpClient(h) => h.local_addr(),
            Handler::Http2Server(h) => h.local_addr(),
            Handler::Http2Client(h) => h.local_addr(),
            Handler::Http3Server(h) => h.local_addr(),
            Handler::Http3Client(h) => h.local_addr(),
        }
    }

    fn remote_addr(&self) -> (addr: Option<SocketAddress>) {
        match self {
            Handler::TcpServer(h) => h.remote_addr(),
            Handler::TcpClient(h) => h.remote_addr(),
            Handler::UdpServer(h) => h.remote_addr(),
            Handler::UdpClient(h) => h.remote_addr(),
            Handler::WebSocketServer(h) => h.remote_addr(),
            Handler::WebSocketClient(h) => h.remote_addr(),
            Handler::HttpServer(h) => h.remote_addr(),
            Handler::HttpClient(h) => h.remote_addr(),
            Handler::Http2Server(h) => h.remote_addr(),
            Handler::Http2Client(h) => h.remote_addr(),
            Handler::Http3Server(h) => h.remote_addr(),
            Handler::Http3Client(h) => h.remote_addr(),
        }
    }

    fn register_peer(&mut self, addr: SocketAddress, id: String) -> (accepted: Accepted) {
        match self {
            Handler::TcpServer(h) => h.register_peer(addr, id),
            Handler::TcpClient(h) => h.register_peer(addr, id),
            Handler::UdpServer(h) => h.register_peer(addr, id),
            Handler::UdpClient(h) => h.register_peer(addr, id),
            Handler::WebSocketServer(h) => h.register_peer(addr, id),
            Handler::WebSocketClient(h) => h.register_peer(addr, id),
            Handler::HttpServer(h) => h.register_peer(addr, id),
            Handler::HttpClient(h) => h.register_peer(addr, id),
            Handler::Http2Server(h) => h.register_peer(addr, id),
            Handler::Http2Client(h) => h.register_peer(addr, id),
            Handler::Http3Server(h) => h.register_peer(addr, id),
            Handler::Http3Client(h) => h.register_peer(addr, id),
        }
    }

    fn close_peer(&mut self, reader: &mut PeerReader) -> (notice: Option<Message>) {
        match self {
            Handler::TcpServer(h) => h.close_peer(reader),
            Handler::TcpClient(h) => h.close_peer(reader),
            Handler::UdpServer(h) => h.close_peer(reader),
            Handler::UdpClient(h) => h.close_peer(reader),
            Handler::WebSocketServer(h) => h.close_peer(reader),
            Handler::WebSocketClient(h) => h.close_peer(reader),
            Handler::HttpServer(h) => h.close_peer(reader),
            Handler::HttpClient(h) => h.close_peer(reader),
            Handler::Http2Server(h) => h.close_peer(reader),
            Handler::Http2Client(h) => h.close_peer(reader),
            Handler::Http3Server(h) => h.close_peer(reader),
            Handler::Http3Client(h) => h.close_peer(reader),
        }
    }
}

/// The peer that a message asks to be sent to: the one it names, if any.
pub open spec fn command_target(command: Message) -> Option<Seq<char>> {
    match command.connection_info {
        Some(info) => Some(info.connection_id@),
        None => None,
    }
}

/// Sends what the consumer asked to be sent: the content of the message, to
/// the peer that the message names. The outcome is that of `send_message`.
pub fn send_command<H: ProtocolHandler>(handler: &mut H, command: Message) -> (r: Result<
    (),
    HandlerError,
>)
    ensures
        final(handler).model() == old(handler).model(),
        final(handler).control_sender() == old(handler).control_sender(),
        final(handler).queues() == old(handler).queues(),
        final(handler).ui_to_server_sender() == old(handler).ui_to_server_sender(),
        final(handler).server_to_ui_sender() == old(handler).server_to_ui_sender(),
        send_result_fits(
            old(handler).model().engine.send_decision(command.content, command_target(command)),
            r,
        ),
{
    let target = match command.connection_info {
        Some(info) => Some(info.connection_id),
        None => None,
    };
    handler.send_message(command.content, target)
}

/// The protocol that a name in lower case stands for.
pub open spec fn protocol_named(name: Seq<char>) -> Option<ProtocolType> {
    if name == "tcp"@ {
        Some(ProtocolType::Tcp)
    } else if name == "udp"@ {
        Some(ProtocolType::Udp)
    } else if name == "websocket"@ {
        Some(ProtocolType::WebSocket)
    } else if name == "http"@ {
        Some(ProtocolType::Http)
    } else if name == "http2"@ {
        Some(ProtocolType::Http2)
    } else if name == "http3"@ {
        Some(ProtocolType::Http3)
    } else {
        None
    }
}

/// The name of the handler of a protocol and role.
pub open spec fn handler_name(protocol: ProtocolType, is_server: bool) -> Seq<char> {
    match (protocol, is_server) {
        (ProtocolType::Tcp, true) => "TCP Server"@,
        (ProtocolType::Tcp, false) => "TCP Client"@,
        (ProtocolType::Udp, true) => "UDP Server"@,
        (ProtocolType::Udp, false) => "UDP Client"@,
        (ProtocolType::WebSocket, true) => "WebSocket Server"@,
        (ProtocolType::WebSocket, false) => "WebSocket Client"@,
        (ProtocolType::Http, true) => "HTTP Server"@,
        (ProtocolType::Http, false) => "HTTP Client"@,
        (ProtocolType::Http2, true) => "HTTP/2 Server"@,
        (ProtocolType::Http2, false) => "HTTP/2 Client"@,
        (ProtocolType::Http3, true) => "HTTP/3 Server"@,
        (ProtocolType::Http3, false) => "HTTP/3 Client"@,
    }
}

/// The name of the handler of a protocol and role. See `handler_name`.
pub fn protocol_label(protocol: ProtocolType, is_server: bool) -> (name: &'static str)
    ensures
        name@ == handler_name(protocol, is_server),
{
    match (protocol, is_server) {
        (ProtocolType::Tcp, true) => "TCP Server",
        (ProtocolType::Tcp, false) => "TCP Client",
        (ProtocolType::Udp, true) => "UDP Server",
        (ProtocolType::Udp, false) => "UDP Client",
        (ProtocolType::WebSocket, true) => "WebSocket Server",
        (ProtocolType::WebSocket, false) => "WebSocket Client",
        (ProtocolType::Http, true) => "HTTP Server",
        (ProtocolType::Http, false) => "HTTP Client",
        (ProtocolType::Http2, true) => "HTTP/2 Server",
        (ProtocolType::Http2, false) => "HTTP/2 Client",
        (ProtocolType::Http3, true) => "HTTP/3 Server",
        (ProtocolType::Http3, false) => "HTTP/3 Client",
    }
}

/// Whether the handler of a protocol and role connects to a remote address:
/// the TCP, UDP and WebSocket clients do.
pub open spec fn needs_remote(protocol: ProtocolType, is_server: bool) -> bool {
    !is_server && (protocol == ProtocolType::Tcp || protocol == ProtocolType::Udp || protocol
        == ProtocolType::WebSocket)
}

/// Whether a result is what building the handler of a protocol and role
/// gives. A client that connects to a remote address cannot be built
/// without one. Any other handler is built: it is of the protocol and role
/// asked for, it has the addresses given, it has been wired to the
/// consumer's queue if there is one, and it is created and not started, so
/// that nothing has touched the network.
pub open spec fn is_built(
    r: Result<Handler, HandlerError>,
    protocol: ProtocolType,
    is_server: bool,
    server_to_ui_tx: Option<Sender<Message>>,
    local_addr: SocketAddress,
    remote_addr: Option<SocketAddress>,
) -> bool {
    if needs_remote(protocol, is_server) && remote_addr is None {
        r matches Err(e) && e == HandlerError::MissingRemoteAddress
    } else {
        r matches Ok(handler) && {
            &&& handler.model() == (HandlerView {
                protocol,
                local_addr,
                remote_addr: if needs_remote(protocol, is_server) {
                    remote_addr
                } else {
                    None
                },
                engine: EngineView::initial(
                    if is_server {
                        Role::Server
                    } else {
                        Role::Client
                    },
                ),
            })
            &&& handler.server_to_ui_sender() == server_to_ui_tx
            &&& handler.ui_to_server_sender() is None
            &&& handler.control_sender() is None
            &&& handler.queues() == Map::<Seq<char>, Sender<Bytes>>::empty()
        }
    }
}

/// The protocol that a name stands for. The name is compared as it is:
/// lower case is expected.
pub fn protocol_from_name(name: &str) -> (protocol: Option<ProtocolType>)
    ensures
        protocol == protocol_named(name@),
{
    if same_text(name, "tcp") {
        Some(ProtocolType::Tcp)
    } else if same_text(name, "udp") {
        Some(ProtocolType::Udp)
    } else if same_text(name, "websocket") {
        Some(ProtocolType::WebSocket)
    } else if same_text(name, "http") {
        Some(ProtocolType::Http)
    } else if same_text(name, "http2") {
        Some(ProtocolType::Http2)
    } else if same_text(name, "http3") {
        Some(ProtocolType::Http3)
    } else {
        None
    }
}

fn wired(mut handler: Handler, server_to_ui_tx: Option<Sender<Message>>) -> (wired: Handler)
    requires
        handler.server_to_ui_sender() is None,
    ensures
        wired.model() == handler.model(),
        wired.server_to_ui_sender() == server_to_ui_tx,
        wired.ui_to_server_sender() == handler.ui_to_server_sender(),
        wired.control_sender() == handler.control_sender(),
        wired.queues() == handler.queues(),
{
    match server_to_ui_tx {
        Some(sender) => {
            handler.set_server_to_ui_sender(sender);
        },
        None => {},
    }
    handler
}

/// Builds the handler of a protocol and role, and wires it to the
/// consumer's queue if one is given. Nothing is started: see `is_built`.
pub fn build_handler(
    protocol: ProtocolType,
    is_server: bool,
    server_to_ui_tx: Option<Sender<Message>>,
    local_addr: SocketAddress,
    remote_addr: Option<SocketAddress>,
) -> (r: Result<Handler, HandlerError>)
    ensures
        is_built(r, protocol, is_server, server_to_ui_tx, local_addr, remote_addr),
{
    let handler = match (protocol, is_server) {
        (ProtocolType::Tcp, true) => Handler::TcpServer(TcpServerHandler::new(local_addr)),
        (ProtocolType::Tcp, false) => match remote_addr {
            Some(remote) => Handler::TcpClient(TcpClientHandler::new(local_addr, remote)),
            None => {
                return Err(HandlerError::MissingRemoteAddress);
            },
        },
        (ProtocolType::Udp, true) => Handler::UdpServer(UdpServerHandler::new(local_addr)),
        (ProtocolType::Udp, false) => match remote_addr {
            Some(remote) => Handler::UdpClient(UdpClientHandler::new(local_addr, remote)),
            None => {
                return Err(HandlerError::MissingRemoteAddress);
            },
        },
        (ProtocolType::WebSocket, true) => Handler::WebSocketServer(
            WebSocketServerHandler::new(local_addr),
        ),
        (ProtocolType::WebSocket, false) => match remote_addr {
            Some(remote) => Handler::WebSocketClient(
                WebSocketClientHandler::new(local_addr, remote),
            ),
            None => {
                return Err(HandlerError::MissingRemoteAddress);
            },
        },
        (ProtocolType::Http, true) => Handler::HttpServer(HttpServerHandler::new(local_addr)),
        (ProtocolType::Http, false) => Handler::HttpClient(
            HttpClientHandler::new(local_addr, None),
        ),
        (ProtocolType::Http2, true) => Handler::Http2Server(Http2ServerHandler::new(local_addr)),
        (ProtocolType::Http2, false) => Handler::Http2Client(
            Http2ClientHandler::new(local_addr, None),
        ),
        (ProtocolType::Http3, true) => Handler::Http3Server(Http3ServerHandler::new(local_addr)),
        (ProtocolType::Http3, false) => Handler::Http3Client(
            Http3ClientHandler::new(local_addr, None),
        ),
    };
    Ok(wired(handler, server_to_ui_tx))
}

/// Builds the handler that a protocol name and a role select. The name is
/// taken in any mix of upper and lower case. A name that is none of `tcp`,
/// `udp`, `websocket`, `http`, `http2` and `http3` is refused with
/// `UnsupportedProtocol`, which carries the name as it was given. For a
/// name that is known the result is that of `build_handler`.
pub fn create_protocol_handler(
    protocol: &str,
    is_server: bool,
    server_to_ui_tx: Option<Sender<Message>>,
    local_addr: SocketAddress,
    remote_addr: Option<SocketAddress>,
) -> (r: Result<Handler, HandlerError>)
    ensures
        match protocol_named(lowercase_text(protocol@)) {
            Some(kind) => is_built(r, kind, is_server, server_to_ui_tx, local_addr, remote_addr),
            None => r matches Err(HandlerError::UnsupportedProtocol(name)) && name@ == protocol@,
        },
{
    let lowered = to_lowercase(protocol);
    match protocol_from_name(lowered.as_str()) {
        Some(kind) => build_handler(kind, is_server, server_to_ui_tx, local_addr, remote_addr),
        None => Err(HandlerError::UnsupportedProtocol(String::from_str(protocol))),
    }
}

} // verus!
