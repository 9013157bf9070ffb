//! The TCP handlers.

use bytes::Bytes;
use tokio::sync::mpsc::Sender;
use vstd::prelude::*;

use crate::cli::args::ProtocolType;
use crate::protocols::address::SocketAddress;
use crate::protocols::common::ConnectionInfo;
use crate::protocols::common::HandlerError;
use crate::protocols::common::HandlerView;
use crate::protocols::common::Message;
use crate::protocols::common::MessageType;
use crate::protocols::common::ProtocolHandler;
use crate::protocols::common::protocol_label;
use crate::protocols::engine::Accepted;
use crate::protocols::engine::EngineView;
use crate::protocols::engine::Role;
use crate::protocols::engine::StartKit;
use crate::protocols::engine::ClientEngine;
use crate::protocols::engine::ServerEngine;
use crate::protocols::tasks::PeerReader;

verus! {

/// A TCP server: listens on its local address and serves every peer that
/// connects.
pub struct TcpServerHandler {
    local_addr: SocketAddress,
    engine: ServerEngine,
}

impl TcpServerHandler {
    /// A handler for the given address. Nothing is bound and no queue is
    /// made until the handler is started.
    pub fn new(local_addr: SocketAddress) -> (handler: TcpServerHandler)
        ensures
            handler.model() == (HandlerView {
                protocol: ProtocolType::Tcp,
                local_addr,
                remote_addr: None,
                engine: EngineView::initial(Role::Server),
            }),
            handler.control_sender() is None,
            handler.queues() == Map::<Seq<char>, Sender<Bytes>>::empty(),
            handler.ui_to_server_sender() is None,
            handler.server_to_ui_sender() is None,
    {
        TcpServerHandler { local_addr, engine: ServerEngine::new() }
    }

    /// A handler of this type is a server, whatever was done to it.
    pub proof fn lemma_role(&self)
        ensures
            self.model().engine.role == Role::Server,
    {
        self.engine.lemma_role();
    }
}

impl ProtocolHandler for TcpServerHandler {
    closed spec fn model(&self) -> HandlerView {
        HandlerView {
            protocol: ProtocolType::Tcp,
            local_addr: self.local_addr,
            remote_addr: None,
            engine: self.engine@,
        }
    }

    closed spec fn control_sender(&self) -> Option<Sender<()>> {
        self.engine.control_sender()
    }

    closed spec fn ui_to_server_sender(&self) -> Option<Sender<Message>> {
        self.engine.ui_to_server_sender()
    }

    closed spec fn queues(&self) -> Map<Seq<char>, Sender<Bytes>> {
        self.engine.queues()
    }

    closed spec fn server_to_ui_sender(&self) -> Option<Sender<Message>> {
        self.engine.server_to_ui_sender()
    }

    fn begin_start(&mut self) -> (r: Result<(), HandlerError>) {
        self.engine.begin_start()
    }

    fn finish_start(&mut self, bound: Result<SocketAddress, String>) -> (r: Result<
        StartKit,
        HandlerError,
    >) {
        match bound {
            Ok(actual) => {
                let r = self.engine.finish_start(Ok(()));
                if r.is_ok() {
                    self.local_addr = actual;
                }
                r
            },
            Err(reason) => self.engine.finish_start(Err(reason)),
        }
    }

    fn stop(&mut self) -> (r: Result<(), HandlerError>) {
        self.engine.stop()
    }

    fn send_message(&mut self, message: MessageType, target: Option<String>) -> (r: Result<
        (),
        HandlerError,
    >) {
        self.engine.send_message(message, target)
    }

    fn get_ui_to_server_sender(&self) -> (sender: Option<Sender<Message>>) {
        self.engine.get_ui_to_server_sender()
    }

    fn set_server_to_ui_sender(&mut self, sender: Sender<Message>) {
        self.engine.set_server_to_ui_sender(sender)
    }

    fn is_running(&self) -> (running: bool) {
        self.engine.is_running()
    }

    fn get_connections(&self) -> (list: Vec<ConnectionInfo>) {
        self.engine.get_connections()
    }

    fn protocol_name(&self) -> (name: &'static str) {
        protocol_label(ProtocolType::Tcp, self.engine.role() == Role::Server)
    }

    fn role(&self) -> (role: Role)
        ensures
            role == Role::Server,
    {
        self.engine.role()
    }

    fn local_addr(&self) -> (addr: SocketAddress) {
        self.local_addr
    }

    fn remote_addr(&self) -> (addr: Option<SocketAddress>) {
        None
    }

    fn register_peer(&mut self, addr: SocketAddress, id: String) -> (accepted: Accepted) {
        self.engine.register_peer(addr, id)
    }

    fn close_peer(&mut self, reader: &mut PeerReader) -> (notice: Option<Message>) {
        self.engine.close_peer(reader)
    }
}

/// A TCP client: connects from its local address to one server.
pub struct TcpClientHandler {
    local_addr: SocketAddress,
    remote_addr: SocketAddress,
    engine: ClientEngine,
}

impl TcpClientHandler {
    /// A handler for the given addresses. Nothing is connected and no queue
    /// is made until the handler is started.
    pub fn new(local_addr: SocketAddress, remote_addr: SocketAddress) -> (handler:
        TcpClientHandler)
        ensures
            handler.model() == (HandlerView {
                protocol: ProtocolType::Tcp,
                local_addr,
                remote_addr: Some(remote_addr),
                engine: EngineView::initial(Role::Client),
            }),
            handler.control_sender() is None,
            handler.queues() == Map::<Seq<char>, Sender<Bytes>>::empty(),
            handler.ui_to_server_sender() is None,
            handler.server_to_ui_sender() is None,
    {
        TcpClientHandler { local_addr, remote_addr, engine: ClientEngine::new() }
    }

    /// A handler of this type is a client, whatever was done to it.
    pub proof fn lemma_role(&self)
        ensures
            self.model().engine.role == Role::Client,
    {
        self.engine.lemma_role();
    }
}

impl ProtocolHandler for TcpClientHandler {
    closed spec fn model(&self) -> HandlerView {
        HandlerView {
            protocol: ProtocolType::Tcp,
            local_addr: self.local_addr,
            remote_addr: Some(self.remote_addr),
            engine: self.engine@,
        }
    }

    closed spec fn control_sender(&self) -> Option<Sender<()>> {
        self.engine.control_sender()
    }

    closed spec fn ui_to_server_sender(&self) -> Option<Sender<Message>> {
        self.engine.ui_to_server_sender()
    }

    closed spec fn queues(&self) -> Map<Seq<char>, Sender<Bytes>> {
        self.engine.queues()
    }

    closed spec fn server_to_ui_sender(&self) -> Option<Sender<Message>> {
        self.engine.server_to_ui_sender()
    }

    fn begin_start(&mut self) -> (r: Result<(), HandlerError>) {
        self.engine.begin_start()
    }

    fn finish_start(&mut self, bound: Result<SocketAddress, String>) -> (r: Result<
        StartKit,
        HandlerError,
    >) {
        match bound {
            Ok(actual) => {
                let r = self.engine.finish_start(Ok(()));
                if r.is_ok() {
                    self.local_addr = actual;
                }
                r
            },
            Err(reason) => self.engine.finish_start(Err(reason)),
        }
    }

    fn stop(&mut self) -> (r: Result<(), HandlerError>) {
        self.engine.stop()
    }

    fn send_message(&mut self, message: MessageType, target: Option<String>) -> (r: Result<
        (),
        HandlerError,
    >) {
        self.engine.send_message(message, target)
    }

    fn get_ui_to_server_sender(&self) -> (sender: Option<Sender<Message>>) {
        self.engine.get_ui_to_server_sender()
    }

    fn set_server_to_ui_sender(&mut self, sender: Sender<Message>) {
        self.engine.set_server_to_ui_sender(sender)
    }

    fn is_running(&self) -> (running: bool) {
        self.engine.is_running()
    }

    fn get_connections(&self) -> (list: Vec<ConnectionInfo>) {
        self.engine.get_connections()
    }

    fn protocol_name(&self) -> (name: &'static str) {
        protocol_label(ProtocolType::Tcp, self.engine.role() == Role::Server)
    }

    fn role(&self) -> (role: Role)
        ensures
            role == Role::Client,
    {
        self.engine.role()
    }

    fn local_addr(&self) -> (addr: SocketAddress) {
        self.local_addr
    }

    fn remote_addr(&self) -> (addr: Option<SocketAddress>) {
        Some(self.remote_addr)
    }

    fn register_peer(&mut self, addr: SocketAddress, id: String) -> (accepted: Accepted) {
        self.engine.register_peer(addr, id)
    }

    fn close_peer(&mut self, reader: &mut PeerReader) -> (notice: Option<Message>) {
        self.engine.close_peer(reader)
    }
}

} // verus!
