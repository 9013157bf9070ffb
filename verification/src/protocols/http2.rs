//! The HTTP/2 handlers.

use bytes::Bytes;
use tokio::sync::mpsc::Sender;
use vstd::prelude::*;

use crate::cli::args::HttpClientArgs;
use crate::cli::args::ProtocolType;
use crate::protocols::address::SocketAddress;
use crate::protocols::common::ConnectionInfo;
use crate::protocols::common::HandlerError;
use crate::protocols::common::HandlerView;
use crate::protocols::common::Message;
use crate::protocols::common::MessageType;
use crate::protocols::common::ProtocolHandler;
use crate::protocols::common::protocol_label;
use crate::protocols::engine::Accepted;
use crate::protocols::engine::EngineView;
use crate::protocols::engine::Role;
use crate::protocols::engine::StartKit;
use crate::protocols::engine::ClientEngine;
use crate::protocols::engine::ServerEngine;
use crate::protocols::tasks::PeerReader;

verus! {

/// An HTTP/2 server: listens on its local address. Its peers are the
/// streams that are open.
pub struct Http2ServerHandler {
    local_addr: SocketAddress,
    engine: ServerEngine,
}

impl Http2ServerHandler {
    /// A handler for the given address. Nothing is bound and no queue is
    /// made until the handler is started.
    pub fn new(local_addr: SocketAddress) -> (handler: Http2ServerHandler)
        ensures
            handler.model() == (HandlerView {
                protocol: ProtocolType::Http2,
                local_addr,
                remote_addr: None,
                engine: EngineView::initial(Role::Server),
            }),
            handler.control_sender() is None,
            handler.queues() == Map::<Seq<char>, Sender<Bytes>>::empty(),
            handler.ui_to_server_sender() is None,
            handler.server_to_ui_sender() is None,
    {
        Http2ServerHandler { local_addr, engine: ServerEngine::new() }
    }

    /// A handler of this type is a server, whatever was done to it.
    pub proof fn lemma_role(&self)
        ensures
            self.model().engine.role == Role::Server,
    {
        self.engine.lemma_role();
    }
}

impl ProtocolHandler for Http2ServerHandler {
    closed spec fn model(&self) -> HandlerView {
        HandlerView {
            protocol: ProtocolType::Http2,
            local_addr: self.local_addr,
            remote_addr: None,
            engine: self.engine@,
        }
    }

    closed spec fn control_sender(&self) -> Option<Sender<()>> {
        self.engine.control_sender()
    }

    closed spec fn ui_to_server_sender(&self) -> Option<Sender<Message>> {
        self.engine.ui_to_server_sender()
    }

    closed spec fn queues(&self) -> Map<Seq<char>, Sender<Bytes>> {
        self.engine.queues()
    }

    closed spec fn server_to_ui_sender(&self) -> Option<Sender<Message>> {
        self.engine.server_to_ui_sender()
    }

    fn begin_start(&mut self) -> (r: Result<(), HandlerError>) {
        self.engine.begin_start()
    }

    fn finish_start(&mut self, bound: Result<SocketAddress, String>) -> (r: Result<
        StartKit,
        HandlerError,
    >) {
        match bound {
            Ok(actual) => {
                let r = self.engine.finish_start(Ok(()));
                if r.is_ok() {
                    self.local_addr = actual;
                }
                r
            },
            Err(reason) => self.engine.finish_start(Err(reason)),
        }
    }

    fn stop(&mut self) -> (r: Result<(), HandlerError>) {
        self.engine.stop()
    }

    fn send_message(&mut self, message: MessageType, target: Option<String>) -> (r: Result<
        (),
        HandlerError,
    >) {
        self.engine.send_message(message, target)
    }

    fn get_ui_to_server_sender(&self) -> (sender: Option<Sender<Message>>) {
        self.engine.get_ui_to_server_sender()
    }

    fn set_server_to_ui_sender(&mut self, sender: Sender<Message>) {
        self.engine.set_server_to_ui_sender(sender)
    }

    fn is_running(&self) -> (running: bool) {
        self.engine.is_running()
    }

    fn get_connections(&self) -> (list: Vec<ConnectionInfo>) {
        self.engine.get_connections()
    }

    fn protocol_name(&self) -> (name: &'static str) {
        protocol_label(ProtocolType::Http2, self.engine.role() == Role::Server)
    }

    fn role(&self) -> (role: Role)
        ensures
            role == Role::Server,
    {
        self.engine.role()
    }

    fn local_addr(&self) -> (addr: SocketAddress) {
        self.local_addr
    }

    fn remote_addr(&self) -> (addr: Option<SocketAddress>) {
        None
    }

    fn register_peer(&mut self, addr: SocketAddress, id: String) -> (accepted: Accepted) {
        self.engine.register_peer(addr, id)
    }

    fn close_peer(&mut self, reader: &mut PeerReader) -> (notice: Option<Message>) {
        self.engine.close_peer(reader)
    }
}

/// An HTTP/2 client: sends the request it was made for.
pub struct Http2ClientHandler {
    local_addr: SocketAddress,
    http_args: Option<HttpClientArgs>,
    engine: ClientEngine,
}

impl Http2ClientHandler {
    /// A handler for the given request. Nothing is connected and no queue is
    /// made until the handler is started.
    pub fn new(local_addr: SocketAddress, http_args: Option<HttpClientArgs>) -> (handler:
        Http2ClientHandler)
        ensures
            handler.model() == (HandlerView {
                protocol: ProtocolType::Http2,
                local_addr,
                remote_addr: None,
                engine: EngineView::initial(Role::Client),
            }),
            handler.spec_http_args() == http_args,
            handler.control_sender() is None,
            handler.queues() == Map::<Seq<char>, Sender<Bytes>>::empty(),
            handler.ui_to_server_sender() is None,
            handler.server_to_ui_sender() is None,
    {
        Http2ClientHandler { local_addr, http_args, engine: ClientEngine::new() }
    }

    /// The request that the handler was made for.
    pub closed spec fn spec_http_args(&self) -> Option<HttpClientArgs> {
        self.http_args
    }

    /// The request that the handler was made for.
    pub fn http_args(&self) -> (args: &Option<HttpClientArgs>)
        ensures
            *args == self.spec_http_args(),
    {
        &self.http_args
    }

    /// A handler of this type is a client, whatever was done to it.
    pub proof fn lemma_role(&self)
        ensures
            self.model().engine.role == Role::Client,
    {
        self.engine.lemma_role();
    }
}

impl ProtocolHandler for Http2ClientHandler {
    closed spec fn model(&self) -> HandlerView {
        HandlerView {
            protocol: ProtocolType::Http2,
            local_addr: self.local_addr,
            remote_addr: None,
            engine: self.engine@,
        }
    }

    closed spec fn control_sender(&self) -> Option<Sender<()>> {
        self.engine.control_sender()
    }

    closed spec fn ui_to_server_sender(&self) -> Option<Sender<Message>> {
        self.engine.ui_to_server_sender()
    }

    closed spec fn queues(&self) -> Map<Seq<char>, Sender<Bytes>> {
        self.engine.queues()
    }

    closed spec fn server_to_ui_sender(&self) -> Option<Sender<Message>> {
        self.engine.server_to_ui_sender()
    }

    fn begin_start(&mut self) -> (r: Result<(), HandlerError>) {
        self.engine.begin_start()
    }

    fn finish_start(&mut self, bound: Result<SocketAddress, String>) -> (r: Result<
        StartKit,
        HandlerError,
    >) {
        match bound {
            Ok(actual) => {
                let r = self.engine.finish_start(Ok(()));
                if r.is_ok() {
                    self.local_addr = actual;
                }
                r
            },
            Err(reason) => self.engine.finish_start(Err(reason)),
        }
    }

    fn stop(&mut self) -> (r: Result<(), HandlerError>) {
        self.engine.stop()
    }

    fn send_message(&mut self, message: MessageType, target: Option<String>) -> (r: Result<
        (),
        HandlerError,
    >) {
        self.engine.send_message(message, target)
    }

    fn get_ui_to_server_sender(&self) -> (sender: Option<Sender<Message>>) {
        self.engine.get_ui_to_server_sender()
    }

    fn set_server_to_ui_sender(&mut self, sender: Sender<Message>) {
        self.engine.set_server_to_ui_sender(sender)
    }

    fn is_running(&self) -> (running: bool) {
        self.engine.is_running()
    }

    fn get_connections(&self) -> (list: Vec<ConnectionInfo>) {
        self.engine.get_connections()
    }

    fn protocol_name(&self) -> (name: &'static str) {
        protocol_label(ProtocolType::Http2, self.engine.role() == Role::Server)
    }

    fn role(&self) -> (role: Role)
        ensures
            role == Role::Client,
    {
        self.engine.role()
    }

    fn local_addr(&self) -> (addr: SocketAddress) {
        self.local_addr
    }

    fn remote_addr(&self) -> (addr: Option<SocketAddress>) {
        None
    }

    fn register_peer(&mut self, addr: SocketAddress, id: String) -> (accepted: Accepted) {
        self.engine.register_peer(addr, id)
    }

    fn close_peer(&mut self, reader: &mut PeerReader) -> (notice: Option<Message>) {
        self.engine.close_peer(reader)
    }
}

} // verus!
