//! The transport engine: the life cycle of one handler, its registry of
//! peers, and the decisions of `send`. The engine never touches a socket and
//! never waits. Whoever drives it performs the network operations and tells
//! the engine what came of them.

use bytes::Bytes;
use tokio::sync::mpsc::Receiver;
use tokio::sync::mpsc::Sender;
use vstd::prelude::*;

use crate::protocols::address::SocketAddress;
use crate::protocols::channel::Enqueue;
use crate::protocols::channel::bytes_queue;
use crate::protocols::channel::bytes_queue_ends;
use crate::protocols::channel::message_queue;
use crate::protocols::channel::message_queue_ends;
use crate::protocols::channel::signal_queue;
use crate::protocols::channel::signal_queue_ends;
use crate::protocols::channel::bytes_contents;
use crate::protocols::channel::try_enqueue;
use crate::protocols::common::ConnectionInfo;
use crate::protocols::common::HandlerError;
use crate::protocols::common::Message;
use crate::protocols::common::MessageDirection;
use crate::protocols::common::MessageType;
use crate::protocols::registry::ClientRegistry;
use crate::protocols::registry::PeerView;
use crate::protocols::registry::TcpClientInfo;
use crate::protocols::registry::distinct_ids;
use crate::protocols::registry::has_peer;
use crate::protocols::registry::with_peer;
use crate::protocols::registry::without_peer;
use crate::protocols::tasks::PeerReader;
use crate::protocols::tasks::ReaderPhase;
use crate::protocols::tasks::ReaderView;
use crate::utils::text::decode_lossy;
use crate::utils::text::text_of;
use crate::utils::text::utf8_lossy_text;

verus! {

/// How many messages the queue from the consumer to the engine holds.
pub const BRIDGE_CAPACITY: usize = 100;

/// How many buffers the outbound queue of one peer holds.
pub const PEER_QUEUE_CAPACITY: usize = 100;

/// How many stop requests the control queue holds.
pub const CONTROL_CAPACITY: usize = 1;

/// How long, in milliseconds, a background task waits for room on the
/// consumer's queue before it drops the message it has for the consumer
/// and logs that it did. A slow consumer delays a task by this much per
/// message at most, and never blocks it for good.
pub const FORWARD_TIMEOUT_MILLIS: u64 = 1000;

/// Whether a handler waits for peers or reaches out to a single one.
#[derive(Debug, Clone, Copy, PartialEq, Eq, Structural)]
pub enum Role {
    Server,
    Client,
}

/// Where an engine is in its life.
#[derive(Debug, Clone, Copy, PartialEq, Eq, Structural)]
pub enum EngineState {
    /// Made, and never started or failed to start.
    Created,
    /// Asked to start; binding or connecting is under way.
    Starting,
    /// Bound or connected, and serving.
    Running,
    /// Asked to stop; the stop request is being taken. An engine is in this
    /// state only inside `take_stop_request`.
    Stopping,
    /// Stopped for good.
    Stopped,
}

/// The state of an engine as contracts see it.
pub struct EngineView {
    pub role: Role,
    pub state: EngineState,
    /// The connected peers, in the order of the registry.
    pub peers: Seq<PeerView>,
}

/// What `send` decides before anything is put on a queue.
pub enum SendDecision {
    /// The target names no connected peer.
    NoSuchConnection,
    /// The engine is not running.
    NotRunning,
    /// The content is a notice.
    NothingToSend,
    /// The content is malformed hexadecimal, for this reason.
    InvalidContent { reason: Seq<char> },
    /// These bytes go to the peer with this key.
    Deliver { id: Seq<char>, bytes: Seq<u8> },
}

impl EngineView {
    /// A new engine: created, with nobody connected.
    pub open spec fn initial(role: Role) -> EngineView {
        EngineView { role, state: EngineState::Created, peers: Seq::empty() }
    }

    /// Whether the engine is running.
    pub open spec fn is_running(self) -> bool {
        self.state == EngineState::Running
    }

    /// After `begin_start`: a created engine is starting, any other is as it
    /// was.
    pub open spec fn begin_start(self) -> EngineView {
        if self.state == EngineState::Created {
            EngineView { state: EngineState::Starting, ..self }
        } else {
            self
        }
    }

    /// After `finish_start`: a starting engine runs if it was bound and is
    /// back to created if not; any other is as it was.
    pub open spec fn finish_start(self, bound: bool) -> EngineView {
        if self.state == EngineState::Starting {
            EngineView {
                state: if bound {
                    EngineState::Running
                } else {
                    EngineState::Created
                },
                ..self
            }
        } else {
            self
        }
    }

    /// After `stop`: a running engine is stopped, any other is as it was.
    pub open spec fn stop(self) -> EngineView {
        if self.state == EngineState::Running {
            EngineView { state: EngineState::Stopped, ..self }
        } else {
            self
        }
    }

    /// After registering a peer.
    pub open spec fn register(self, peer: PeerView) -> EngineView {
        EngineView { peers: with_peer(self.peers, peer), ..self }
    }

    /// After the peer with the given key has gone.
    pub open spec fn close(self, id: Seq<char>) -> EngineView {
        EngineView { peers: without_peer(self.peers, id), ..self }
    }

    /// The peer that a send with the given target goes to. A server sends to
    /// the peer that the target names, if it is connected. A client has one
    /// peer and sends to it whatever the target says.
    pub open spec fn destination(self, target: Option<Seq<char>>) -> Option<Seq<char>> {
        match self.role {
            Role::Server => match target {
                Some(id) => if has_peer(self.peers, id) {
                    Some(id)
                } else {
                    None
                },
                None => None,
            },
            Role::Client => if self.peers.len() > 0 {
                Some(self.peers[0].id)
            } else {
                None
            },
        }
    }

    /// What `send` decides. An engine that is not running sends nothing,
    /// whatever the target and the content. A running engine resolves the
    /// target and looks at the content last.
    pub open spec fn send_decision(self, content: MessageType, target: Option<Seq<char>>)
        -> SendDecision {
        if !self.is_running() {
            SendDecision::NotRunning
        } else {
            match self.destination(target) {
                None => SendDecision::NoSuchConnection,
                Some(id) => match content.spec_payload() {
                    Some(bytes) => SendDecision::Deliver { id, bytes },
                    None => if content.is_notice() {
                        SendDecision::NothingToSend
                    } else {
                        SendDecision::InvalidContent { reason: content.spec_malformed() }
                    },
                },
            }
        }
    }
}

/// Whether a list names exactly the peers of a listing, in its order.
pub open spec fn lists_peers(list: Seq<ConnectionInfo>, peers: Seq<PeerView>) -> bool {
    &&& list.len() == peers.len()
    &&& forall|i: int|
        0 <= i < list.len() ==> (#[trigger] list[i]).connection_id@ == peers[i].id
            && list[i].remote_addr == peers[i].addr
}

/// Whether a message is a notice of the given kind about the given peer.
pub open spec fn is_notice_about(
    m: Message,
    content: MessageType,
    id: Seq<char>,
    addr: SocketAddress,
) -> bool {
    &&& m.content == content
    &&& m.direction == MessageDirection::Received
    &&& m.connection_info matches Some(info) && info.connection_id@ == id && info.remote_addr
        == addr
}

/// Whether a result is one that `send` may give for a decision: each refusal
/// has its own error, and a delivery succeeds or fails with `ConnectionBusy`
/// or `ConnectionClosed` as the peer's queue decides.
pub open spec fn send_result_fits(decision: SendDecision, r: Result<(), HandlerError>) -> bool {
    match decision {
        SendDecision::NoSuchConnection => r == Err::<(), HandlerError>(
            HandlerError::NoSuchConnection,
        ),
        SendDecision::NotRunning => r == Err::<(), HandlerError>(HandlerError::NotRunning),
        SendDecision::NothingToSend => r == Err::<(), HandlerError>(HandlerError::NothingToSend),
        SendDecision::InvalidContent { reason } => r matches Err(
            HandlerError::InvalidContent(text),
        ) && text@ == reason,
        SendDecision::Deliver { .. } => r is Ok || r == Err::<(), HandlerError>(
            HandlerError::ConnectionBusy,
        ) || r == Err::<(), HandlerError>(HandlerError::ConnectionClosed),
    }
}

/// Whether a result is the one that `begin_start` gives in a state.
pub open spec fn begin_start_result(state: EngineState, r: Result<(), HandlerError>) -> bool {
    if state == EngineState::Created {
        r is Ok
    } else {
        r == Err::<(), HandlerError>(HandlerError::AlreadyStarted)
    }
}

/// Whether a result is the one that `finish_start` gives in a state for an
/// outcome of binding, with the notifier that the engine had.
pub open spec fn finish_start_result<T>(
    state: EngineState,
    bound: Result<T, String>,
    notifier: Option<Sender<Message>>,
    r: Result<StartKit, HandlerError>,
) -> bool {
    if state != EngineState::Starting {
        r matches Err(e) && e == HandlerError::NotStarting
    } else {
        match bound {
            Ok(_) => r matches Ok(kit) && kit.notifier == notifier,
            Err(reason) => r matches Err(e) && e == HandlerError::BindOrConnectFailure(reason),
        }
    }
}

/// What a started engine hands to whoever drives it.
pub struct StartKit {
    /// The receiving end of the control queue, for the accept loop.
    pub control: Receiver<()>,
    /// The receiving end of the queue of messages that the consumer wants
    /// sent.
    pub commands: Receiver<Message>,
    /// The queue on which the consumer hears of traffic, if one was set.
    pub notifier: Option<Sender<Message>>,
}

/// What registering a peer hands to whoever drives the engine.
pub struct Accepted {
    /// The notice that the peer has connected.
    pub notice: Message,
    /// The state of the task that will read from the peer.
    pub reader: PeerReader,
    /// The receiving end of the peer's outbound queue, for the task that
    /// will write to the peer.
    pub outbound: Receiver<Bytes>,
}

/// What a datagram gives rise to.
pub struct Observed {
    /// What registering the sender gave, where the datagram is the first
    /// from its address.
    pub connected: Option<Accepted>,
    /// The datagram as a received message.
    pub received: Message,
}

/// Bytes on their way to one peer, not yet on its queue. The queue itself
/// is not handed out: the only thing to do with a delivery is to dispatch
/// it.
pub struct Delivery {
    peer: String,
    queue: Sender<Bytes>,
    payload: Bytes,
}

/// A delivery as contracts see it.
pub struct DeliveryView {
    /// The key of the peer.
    pub peer: Seq<char>,
    /// The peer's outbound queue.
    pub queue: Sender<Bytes>,
    /// The bytes.
    pub payload: Seq<u8>,
}

impl View for Delivery {
    type V = DeliveryView;

    closed spec fn view(&self) -> DeliveryView {
        DeliveryView {
            peer: self.peer@,
            queue: self.queue,
            payload: bytes_contents(self.payload),
        }
    }
}

/// What `send` reports for each outcome of offering the bytes to the peer's
/// queue: success when they are queued, `ConnectionBusy` when the queue is
/// full, `ConnectionClosed` when the peer's writer has gone.
pub open spec fn spec_delivery_result(outcome: Enqueue) -> Result<(), HandlerError> {
    match outcome {
        Enqueue::Queued => Ok(()),
        Enqueue::Full => Err(HandlerError::ConnectionBusy),
        Enqueue::Closed => Err(HandlerError::ConnectionClosed),
    }
}

/// See `spec_delivery_result`.
pub fn delivery_result(outcome: Enqueue) -> (r: Result<(), HandlerError>)
    ensures
        r == spec_delivery_result(outcome),
{
    match outcome {
        Enqueue::Queued => Ok(()),
        Enqueue::Full => Err(HandlerError::ConnectionBusy),
        Enqueue::Closed => Err(HandlerError::ConnectionClosed),
    }
}

impl Delivery {
    /// The key of the peer that the bytes go to.
    pub fn peer(&self) -> (peer: &str)
        ensures
            peer@ == self@.peer,
    {
        self.peer.as_str()
    }

    /// The bytes.
    pub fn payload(&self) -> (payload: &Bytes)
        ensures
            bytes_contents(*payload) == self@.payload,
    {
        &self.payload
    }

    /// Offers the bytes to the peer's queue without waiting. The bytes are
    /// either queued whole or not at all, and the caller is told which.
    pub fn dispatch(self) -> (r: Result<(), HandlerError>)
        ensures
            r is Ok || r == Err::<(), HandlerError>(HandlerError::ConnectionBusy) || r == Err::<
                (),
                HandlerError,
            >(HandlerError::ConnectionClosed),
    {
        let outcome = try_enqueue(&self.queue, self.payload);
        delivery_result(outcome)
    }
}

/// The engine of one handler. Its role is part of its type: an engine is a
/// server or a client from the day it is made, and nothing changes that.
pub struct TransportEngine<const SERVER: bool> {
    state: EngineState,
    clients: ClientRegistry,
    control_tx: Option<Sender<()>>,
    ui_to_server_tx: Option<Sender<Message>>,
    server_to_ui_tx: Option<Sender<Message>>,
}

/// The engine of a handler that waits for peers.
pub type ServerEngine = TransportEngine<true>;

/// The engine of a handler that reaches out to a single peer.
pub type ClientEngine = TransportEngine<false>;

impl<const SERVER: bool> View for TransportEngine<SERVER> {
    type V = EngineView;

    closed spec fn view(&self) -> EngineView {
        EngineView { role: Self::spec_role(), state: self.state, peers: self.clients@ }
    }
}

impl<const SERVER: bool> TransportEngine<SERVER> {
    /// The role of every engine of this type.
    pub open spec fn spec_role() -> Role {
        if SERVER {
            Role::Server
        } else {
            Role::Client
        }
    }

    /// An engine has the role of its type, whatever was done to it.
    pub proof fn lemma_role(self)
        ensures
            self@.role == Self::spec_role(),
    {
    }

    /// The sending end of the queue from the consumer to the engine; there is
    /// one while the engine runs.
    pub closed spec fn ui_to_server_sender(&self) -> Option<Sender<Message>> {
        self.ui_to_server_tx
    }

    /// The queue on which the consumer hears of traffic, once it is set.
    pub closed spec fn server_to_ui_sender(&self) -> Option<Sender<Message>> {
        self.server_to_ui_tx
    }

    /// The sending end of the control queue, on which the stop request
    /// goes to the accept loop. The engine holds it from a successful start
    /// until it is stopped.
    pub closed spec fn control_sender(&self) -> Option<Sender<()>> {
        self.control_tx
    }

    /// The outbound queue of the peer with the given key.
    pub closed spec fn queue_of(&self, id: Seq<char>) -> Sender<Bytes> {
        self.clients.queue_of(id)
    }

    /// The outbound queue of every connected peer, by key.
    pub open spec fn queues(&self) -> Map<Seq<char>, Sender<Bytes>> {
        Map::new(|id: Seq<char>| has_peer(self@.peers, id), |id: Seq<char>| self.queue_of(id))
    }

    proof fn lemma_queues(self)
        ensures
            self.queues() == self.clients.queues(),
    {
        assert(self.queues() =~= self.clients.queues());
    }

    /// A new engine. Nothing is allocated but the empty registry; no queue
    /// exists yet.
    pub fn new() -> (engine: Self)
        ensures
            engine@ == EngineView::initial(Self::spec_role()),
            engine.queues() == Map::<Seq<char>, Sender<Bytes>>::empty(),
            engine.control_sender() is None,
            engine.ui_to_server_sender() is None,
            engine.server_to_ui_sender() is None,
    {
        TransportEngine {
            state: EngineState::Created,
            clients: ClientRegistry::new(),
            control_tx: None,
            ui_to_server_tx: None,
            server_to_ui_tx: None,
        }
    }

    /// The engine's role.
    pub fn role(&self) -> (role: Role)
        ensures
            role == self@.role,
            role == Self::spec_role(),
    {
        if SERVER {
            Role::Server
        } else {
            Role::Client
        }
    }

    /// Where the engine is in its life.
    pub fn state(&self) -> (state: EngineState)
        ensures
            state == self@.state,
    {
        self.state
    }

    /// Whether the engine is running.
    pub fn is_running(&self) -> (running: bool)
        ensures
            running == self@.is_running(),
    {
        self.state == EngineState::Running
    }

    /// Sets the queue on which the consumer hears of traffic.
    pub fn set_server_to_ui_sender(&mut self, sender: Sender<Message>)
        ensures
            final(self)@ == old(self)@,
            final(self).server_to_ui_sender() == Some(sender),
            final(self).ui_to_server_sender() == old(self).ui_to_server_sender(),
            final(self).control_sender() == old(self).control_sender(),
            final(self).queues() == old(self).queues(),
    {
        self.server_to_ui_tx = Some(sender);
    }

    /// A handle on the queue from the consumer to the engine, if the engine
    /// has one.
    pub fn get_ui_to_server_sender(&self) -> (sender: Option<Sender<Message>>)
        ensures
            sender == self.ui_to_server_sender(),
    {
        match &self.ui_to_server_tx {
            Some(tx) => Some(tx.clone()),
            None => None,
        }
    }

    /// First half of starting. A created engine becomes starting and the
    /// caller may go on to bind or connect. An engine in any other state is
    /// left alone and the call fails with `AlreadyStarted`.
    pub fn begin_start(&mut self) -> (r: Result<(), HandlerError>)
        ensures
            final(self)@ == old(self)@.begin_start(),
            final(self).ui_to_server_sender() == old(self).ui_to_server_sender(),
            final(self).control_sender() == old(self).control_sender(),
            final(self).server_to_ui_sender() == old(self).server_to_ui_sender(),
            final(self).queues() == old(self).queues(),
            begin_start_result(old(self)@.state, r),
    {
        if self.state == EngineState::Created {
            self.state = EngineState::Starting;
            Ok(())
        } else {
            Err(HandlerError::AlreadyStarted)
        }
    }

    /// Second half of starting: the caller reports what binding or connecting
    /// came to. On success a starting engine makes its queues, is running
    /// when the call returns, and hands out the ends that the background
    /// tasks need. On failure it is back to created, as if it had never been
    /// asked to start, and the call fails with the reason. An engine that is
    /// not starting is left alone and the call fails with `NotStarting`.
    pub fn finish_start(&mut self, bound: Result<(), String>) -> (r: Result<
        StartKit,
        HandlerError,
    >)
        ensures
            final(self)@ == old(self)@.finish_start(bound is Ok),
            final(self).server_to_ui_sender() == old(self).server_to_ui_sender(),
            final(self).queues() == old(self).queues(),
            finish_start_result(old(self)@.state, bound, old(self).server_to_ui_sender(), r),
            r is Ok ==> final(self)@.is_running() && final(self).ui_to_server_sender() is Some
                && final(self).control_sender() is Some,
            r matches Ok(kit) ==> signal_queue_ends(final(self).control_sender().unwrap(), kit.control)
                && message_queue_ends(final(self).ui_to_server_sender().unwrap(), kit.commands),
            old(self)@.state != EngineState::Starting ==> final(self).ui_to_server_sender()
                == old(self).ui_to_server_sender() && final(self).control_sender()
                == old(self).control_sender(),
            old(self)@.state == EngineState::Starting && bound is Err ==> final(self)
                .ui_to_server_sender() is None && final(self).control_sender() is None,
    {
        if self.state != EngineState::Starting {
            return Err(HandlerError::NotStarting);
        }
        match bound {
            Ok(_) => {
                let (ui_to_server_tx, ui_to_server_rx) = message_queue(BRIDGE_CAPACITY);
                let (control_tx, control_rx) = signal_queue(CONTROL_CAPACITY);
                self.ui_to_server_tx = Some(ui_to_server_tx);
                self.control_tx = Some(control_tx);
                self.state = EngineState::Running;
                let notifier = match &self.server_to_ui_tx {
                    Some(tx) => Some(tx.clone()),
                    None => None,
                };
                Ok(StartKit { control: control_rx, commands: ui_to_server_rx, notifier })
            },
            Err(reason) => {
                self.ui_to_server_tx = None;
                self.control_tx = None;
                self.state = EngineState::Created;
                Err(HandlerError::BindOrConnectFailure(reason))
            },
        }
    }

    /// First step of stopping: a running engine is stopped and gives up its
    /// end of the control queue, which is handed to the caller so that the
    /// stop request can be offered on it. Once that end is dropped the
    /// control queue is closed, which stops the accept loop just as the
    /// request does. An engine that is not running is left alone and hands
    /// out nothing.
    pub fn take_stop_request(&mut self) -> (request: Option<Sender<()>>)
        ensures
            final(self)@ == old(self)@.stop(),
            request == if old(self)@.is_running() {
                old(self).control_sender()
            } else {
                None
            },
            final(self).control_sender() == if old(self)@.is_running() {
                None
            } else {
                old(self).control_sender()
            },
            final(self).server_to_ui_sender() == old(self).server_to_ui_sender(),
            final(self).ui_to_server_sender() == old(self).ui_to_server_sender(),
            final(self).queues() == old(self).queues(),
    {
        if self.state == EngineState::Running {
            self.state = EngineState::Stopping;
            let request = self.control_tx.take();
            self.state = EngineState::Stopped;
            request
        } else {
            None
        }
    }

    /// Stops a running engine: takes the stop request as `take_stop_request`
    /// does, offers it to the control queue without waiting, and drops the
    /// engine's end of that queue. A request that finds the queue full or
    /// closed is dropped, for then the accept loop is stopping already. The
    /// engine is stopped when the call returns. On an engine that is not
    /// running this does nothing. It never fails.
    pub fn stop(&mut self) -> (r: Result<(), HandlerError>)
        ensures
            r is Ok,
            final(self)@ == old(self)@.stop(),
            !final(self)@.is_running(),
            final(self).control_sender() == if old(self)@.is_running() {
                None
            } else {
                old(self).control_sender()
            },
            final(self).server_to_ui_sender() == old(self).server_to_ui_sender(),
            final(self).ui_to_server_sender() == old(self).ui_to_server_sender(),
            final(self).queues() == old(self).queues(),
    {
        match self.take_stop_request() {
            Some(control) => {
                let _ = try_enqueue(&control, ());
            },
            None => {},
        }
        Ok(())
    }

    /// The connected peers at this moment, in the order of the registry.
    pub fn get_connections(&self) -> (list: Vec<ConnectionInfo>)
        ensures
            lists_peers(list@, self@.peers),
            distinct_ids(self@.peers),
    {
        self.clients.connections()
    }

    /// Registers a peer under a key: makes its outbound queue, enters it in
    /// the registry and writes the notice that it has connected. A key that
    /// is in use is taken over by the new peer.
    pub fn register_peer(&mut self, addr: SocketAddress, id: String) -> (accepted: Accepted)
        ensures
            final(self)@ == old(self)@.register(PeerView { id: id@, addr }),
            final(self).server_to_ui_sender() == old(self).server_to_ui_sender(),
            final(self).ui_to_server_sender() == old(self).ui_to_server_sender(),
            final(self).control_sender() == old(self).control_sender(),
            final(self).queues() == old(self).queues().insert(id@, final(self).queue_of(id@)),
            has_peer(final(self)@.peers, id@),
            bytes_queue_ends(final(self).queue_of(id@), accepted.outbound),
            is_notice_about(accepted.notice, MessageType::ClientConnected, id@, addr),
            accepted.reader@ == (ReaderView { id: id@, addr, phase: ReaderPhase::Open }),
    {
        let (tx, outbound) = bytes_queue(PEER_QUEUE_CAPACITY);
        let peer = ConnectionInfo { remote_addr: addr, connection_id: id.clone() };
        let notice = Message::new_received(MessageType::ClientConnected, Some(peer.duplicate()));
        let _ = self.clients.insert(id, TcpClientInfo { addr, tx });
        proof {
            old(self).lemma_queues();
            self.lemma_queues();
        }
        Accepted { notice, reader: PeerReader::new(peer), outbound }
    }

    /// Takes note of a datagram. A sender that is not in the registry is
    /// registered first, as `register_peer` does; a sender that is known is
    /// left as it is. The datagram itself becomes a received message of the
    /// sender whose text is the bytes decoded as UTF-8, with U+FFFD for what
    /// does not decode. A datagram without bytes is a datagram like any
    /// other.
    pub fn observe_datagram(&mut self, addr: SocketAddress, id: String, data: &[u8]) -> (observed:
        Observed)
        ensures
            final(self).server_to_ui_sender() == old(self).server_to_ui_sender(),
            final(self).ui_to_server_sender() == old(self).ui_to_server_sender(),
            final(self).control_sender() == old(self).control_sender(),
            final(self)@ == if has_peer(old(self)@.peers, id@) {
                old(self)@
            } else {
                old(self)@.register(PeerView { id: id@, addr })
            },
            final(self).queues() == if has_peer(old(self)@.peers, id@) {
                old(self).queues()
            } else {
                old(self).queues().insert(id@, final(self).queue_of(id@))
            },
            observed.connected is Some == !has_peer(old(self)@.peers, id@),
            observed.connected matches Some(accepted) ==> is_notice_about(
                accepted.notice,
                MessageType::ClientConnected,
                id@,
                addr,
            ) && accepted.reader@ == (ReaderView { id: id@, addr, phase: ReaderPhase::Open })
                && bytes_queue_ends(final(self).queue_of(id@), accepted.outbound),
            observed.received.direction == MessageDirection::Received,
            observed.received.content matches MessageType::Text(text) && text@ == utf8_lossy_text(
                data@,
            ),
            observed.received.connection_info matches Some(info) && info.connection_id@ == id@
                && info.remote_addr == addr,
    {
        let peer = ConnectionInfo { remote_addr: addr, connection_id: id.clone() };
        let connected = if self.clients.contains(id.as_str()) {
            None
        } else {
            Some(self.register_peer(addr, id))
        };
        let received = Message::new_received(MessageType::Text(decode_lossy(data)), Some(peer));
        Observed { connected, received }
    }

    /// Closes the session of a peer. The first call for a reader takes the
    /// peer out of the registry and gives the notice that it has gone; the
    /// reader is closed from then on, and further calls for it do nothing.
    pub fn close_peer(&mut self, reader: &mut PeerReader) -> (notice: Option<Message>)
        ensures
            final(reader)@ == old(reader)@.close(),
            final(self).server_to_ui_sender() == old(self).server_to_ui_sender(),
            final(self).ui_to_server_sender() == old(self).ui_to_server_sender(),
            final(self).control_sender() == old(self).control_sender(),
            old(reader)@.phase == ReaderPhase::Closed ==> notice is None && final(self)@
                == old(self)@ && final(self).queues() == old(self).queues(),
            old(reader)@.phase != ReaderPhase::Closed ==> final(self).queues() == old(self).queues()
                .remove(old(reader)@.id),
            old(reader)@.phase != ReaderPhase::Closed ==> final(self)@ == old(self)@.close(
                old(reader)@.id,
            ) && (notice matches Some(m) && is_notice_about(
                m,
                MessageType::ClientDisconnected,
                old(reader)@.id,
                old(reader)@.addr,
            )),
    {
        if reader.is_closed() {
            return None;
        }
        let peer = reader.mark_closed();
        let _ = self.clients.remove(peer.connection_id.as_str());
        proof {
            old(self).lemma_queues();
            self.lemma_queues();
        }
        Some(Message::new_received(MessageType::ClientDisconnected, Some(peer)))
    }

    /// Decides what a send comes to, without putting anything on a queue.
    /// The bytes of a delivery are the encoded content and its queue is that
    /// of the destination; every refusal is told apart.
    pub fn plan_send(&self, content: &MessageType, target: &Option<String>) -> (r: Result<
        Delivery,
        HandlerError,
    >)
        ensures
            match self@.send_decision(*content, text_of(*target)) {
                SendDecision::NoSuchConnection => r matches Err(e) && e
                    == HandlerError::NoSuchConnection,
                SendDecision::NotRunning => r matches Err(e) && e == HandlerError::NotRunning,
                SendDecision::NothingToSend => r matches Err(e) && e == HandlerError::NothingToSend,
                SendDecision::InvalidContent { reason } => r matches Err(
                    HandlerError::InvalidContent(text),
                ) && text@ == reason,
                SendDecision::Deliver { id, bytes } => r matches Ok(delivery) && delivery@
                    == (DeliveryView { peer: id, queue: self.queue_of(id), payload: bytes }),
            },
    {
        if self.state != EngineState::Running {
            return Err(HandlerError::NotRunning);
        }
        let found = match self.role() {
            Role::Server => match target {
                Some(id) => match self.clients.get(id.as_str()) {
                    Some(info) => Some((id.clone(), info.tx.clone())),
                    None => None,
                },
                None => None,
            },
            Role::Client => match self.clients.first() {
                Some((id, info)) => Some((id, info.tx.clone())),
                None => None,
            },
        };
        match found {
            None => Err(HandlerError::NoSuchConnection),
            Some((peer, queue)) => match content.payload() {
                Ok(payload) => Ok(Delivery { peer, queue, payload }),
                Err(e) => Err(e),
            },
        }
    }

    /// Sends content to a peer: decides as `plan_send` does and, where that
    /// gives a delivery, offers the bytes to the peer's queue without
    /// waiting. Nothing is offered to any queue unless the decision is a
    /// delivery. The engine itself is left as it was.
    pub fn send_message(&mut self, message: MessageType, target: Option<String>) -> (r: Result<
        (),
        HandlerError,
    >)
        ensures
            final(self)@ == old(self)@,
            final(self).server_to_ui_sender() == old(self).server_to_ui_sender(),
            final(self).ui_to_server_sender() == old(self).ui_to_server_sender(),
            final(self).control_sender() == old(self).control_sender(),
            final(self).queues() == old(self).queues(),
            send_result_fits(old(self)@.send_decision(message, text_of(target)), r),
    {
        match self.plan_send(&message, &target) {
            Ok(delivery) => delivery.dispatch(),
            Err(e) => Err(e),
        }
    }
}

} // verus!
