//! What holds of every history of an engine and of its tasks.
//!
//! A history is a sequence of operations applied one after another. The
//! operations are those of the engine, the readers and the accept loop, seen
//! through the same state functions that their contracts use, so each law
//! here speaks of what the executable functions do.

use vstd::prelude::*;

use crate::protocols::common::Message;
use crate::protocols::common::MessageDirection;
use crate::protocols::common::MessageType;
use crate::cli::args::ProtocolType;
use crate::protocols::address::SocketAddress;
use crate::protocols::common::HandlerView;
use crate::protocols::common::handler_name;
use crate::protocols::engine::EngineState;
use crate::protocols::engine::EngineView;
use crate::protocols::engine::Role;
use crate::protocols::engine::SendDecision;
use crate::protocols::engine::is_notice_about;
use crate::protocols::registry::PeerView;
use crate::protocols::registry::distinct_ids;
use crate::protocols::registry::has_peer;
use crate::protocols::registry::lemma_with_peer_distinct;
use crate::protocols::registry::lemma_without_peer_distinct;
use crate::protocols::registry::peer_index;
use crate::protocols::tasks::AcceptPhase;
use crate::protocols::tasks::ReaderPhase;
use crate::protocols::tasks::ReaderView;
use crate::protocols::tasks::accept_phase_after;

verus! {

/// The kinds of message that an engine and its readers produce about a peer.
#[derive(PartialEq, Eq, Structural)]
pub enum NoticeKind {
    /// The notice that the peer has connected.
    Connected,
    /// Traffic received from the peer.
    Received,
    /// The notice that the peer has gone.
    Disconnected,
}

/// The kind of a message, if it is one that an engine produces about a peer.
pub open spec fn notice_kind(m: Message) -> Option<NoticeKind> {
    match m.content {
        MessageType::ClientConnected => Some(NoticeKind::Connected),
        MessageType::ClientDisconnected => Some(NoticeKind::Disconnected),
        _ => if m.direction == MessageDirection::Received {
            Some(NoticeKind::Received)
        } else {
            None
        },
    }
}

/// The messages that the engine and its readers hand out are of the kinds
/// that the histories below count: the notice that `register_peer` gives is
/// a connect notice, the one that `close_peer` gives is a disconnect
/// notice, and what a reader forwards is received traffic.
pub proof fn law_messages_have_their_kind(m: Message, id: Seq<char>, addr: SocketAddress)
    ensures
        is_notice_about(m, MessageType::ClientConnected, id, addr) ==> notice_kind(m) == Some(
            NoticeKind::Connected,
        ) && m.concerns(id),
        is_notice_about(m, MessageType::ClientDisconnected, id, addr) ==> notice_kind(m) == Some(
            NoticeKind::Disconnected,
        ) && m.concerns(id),
        m.content is Text && m.direction == MessageDirection::Received ==> notice_kind(m) == Some(
            NoticeKind::Received,
        ),
{
}

/// The name of a handler tells its role: a handler is named as a server
/// exactly when its engine is a server, and as a client exactly when its
/// engine is a client. So whoever holds a handler knows from its name, or
/// from `role`, how its `send_message` takes the target.
pub proof fn law_name_tells_the_role(handler: HandlerView)
    ensures
        handler.engine.role == Role::Server <==> handler.name() == handler_name(
            handler.protocol,
            true,
        ),
        handler.engine.role == Role::Client <==> handler.name() == handler_name(
            handler.protocol,
            false,
        ),
{
    match handler.protocol {
        ProtocolType::Tcp => {
            reveal_strlit("TCP Server");
            reveal_strlit("TCP Client");
            assert("TCP Server"@[4] == 'S');
            assert("TCP Client"@[4] == 'C');
        },
        ProtocolType::Udp => {
            reveal_strlit("UDP Server");
            reveal_strlit("UDP Client");
            assert("UDP Server"@[4] == 'S');
            assert("UDP Client"@[4] == 'C');
        },
        ProtocolType::WebSocket => {
            reveal_strlit("WebSocket Server");
            reveal_strlit("WebSocket Client");
            assert("WebSocket Server"@[10] == 'S');
            assert("WebSocket Client"@[10] == 'C');
        },
        ProtocolType::Http => {
            reveal_strlit("HTTP Server");
            reveal_strlit("HTTP Client");
            assert("HTTP Server"@[5] == 'S');
            assert("HTTP Client"@[5] == 'C');
        },
        ProtocolType::Http2 => {
            reveal_strlit("HTTP/2 Server");
            reveal_strlit("HTTP/2 Client");
            assert("HTTP/2 Server"@[7] == 'S');
            assert("HTTP/2 Client"@[7] == 'C');
        },
        ProtocolType::Http3 => {
            reveal_strlit("HTTP/3 Server");
            reveal_strlit("HTTP/3 Client");
            assert("HTTP/3 Server"@[7] == 'S');
            assert("HTTP/3 Client"@[7] == 'C');
        },
    }
}

/// One operation on an engine.
pub enum EngineOp {
    /// `set_server_to_ui_sender`
    SetNotifier,
    /// `begin_start`
    BeginStart,
    /// `finish_start`, told whether binding or connecting succeeded
    FinishStart { bound: bool },
    /// `stop` or `take_stop_request`
    Stop,
    /// `send_message` or `plan_send`
    Send,
    /// `get_connections` or another query
    Query,
    /// `register_peer`
    Register { peer: PeerView },
    /// `close_peer` for a reader of this peer that is not closed yet
    Close { id: Seq<char> },
}

impl EngineOp {
    /// The notice that the operation produces, if any.
    pub open spec fn notice(self) -> Option<NoticeKind> {
        match self {
            EngineOp::Register { .. } => Some(NoticeKind::Connected),
            EngineOp::Close { .. } => Some(NoticeKind::Disconnected),
            _ => None,
        }
    }
}

impl EngineView {
    /// The state after one operation.
    pub open spec fn apply(self, op: EngineOp) -> EngineView {
        match op {
            EngineOp::SetNotifier => self,
            EngineOp::BeginStart => self.begin_start(),
            EngineOp::FinishStart { bound } => self.finish_start(bound),
            EngineOp::Stop => self.stop(),
            EngineOp::Send => self,
            EngineOp::Query => self,
            EngineOp::Register { peer } => self.register(peer),
            EngineOp::Close { id } => self.close(id),
        }
    }

    /// The state after a history.
    pub open spec fn run(self, ops: Seq<EngineOp>) -> EngineView
        decreases ops.len(),
    {
        if ops.len() == 0 {
            self
        } else {
            self.run(ops.drop_last()).apply(ops.last())
        }
    }

    /// Whether a history respects the keys: a peer is registered only under
    /// a key that no connected peer has, and a session is closed only while
    /// its peer is connected.
    pub open spec fn respects_keys(self, ops: Seq<EngineOp>) -> bool
        decreases ops.len(),
    {
        if ops.len() == 0 {
            true
        } else {
            let before = self.run(ops.drop_last());
            &&& self.respects_keys(ops.drop_last())
            &&& match ops.last() {
                EngineOp::Register { peer } => !has_peer(before.peers, peer.id),
                EngineOp::Close { id } => has_peer(before.peers, id),
                _ => true,
            }
        }
    }
}

/// How many notices of one kind a history produces.
pub open spec fn notices_of(ops: Seq<EngineOp>, kind: NoticeKind) -> nat
    decreases ops.len(),
{
    if ops.len() == 0 {
        0
    } else {
        notices_of(ops.drop_last(), kind) + if ops.last().notice() == Some(kind) {
            1nat
        } else {
            0nat
        }
    }
}

/// A start that succeeds leaves the engine running: a created engine that is
/// asked to start and then told that it is bound is running.
pub proof fn law_started_engine_runs(engine: EngineView)
    requires
        engine.state == EngineState::Created,
    ensures
        engine.begin_start().finish_start(true).is_running(),
        !engine.begin_start().finish_start(false).is_running(),
        engine.begin_start().finish_start(false) == engine,
{
}

/// A running engine stays running through every history that holds no stop:
/// nothing but `stop` ends the running.
pub proof fn law_running_until_stopped(engine: EngineView, ops: Seq<EngineOp>)
    requires
        engine.is_running(),
        forall|i: int| 0 <= i < ops.len() ==> !(#[trigger] ops[i] is Stop),
    ensures
        engine.run(ops).is_running(),
    decreases ops.len(),
{
    if ops.len() > 0 {
        let front = ops.drop_last();
        assert forall|i: int| 0 <= i < front.len() implies !(#[trigger] front[i] is Stop) by {
            assert(front[i] == ops[i]);
        }
        law_running_until_stopped(engine, front);
        assert(!(ops[ops.len() - 1] is Stop));
    }
}

/// Stopping is idempotent: a second stop changes nothing, and an engine that
/// was asked to stop is not running, whatever state it was in.
pub proof fn law_stop_is_idempotent(engine: EngineView)
    ensures
        engine.stop().stop() == engine.stop(),
        !engine.stop().is_running(),
{
}

/// Once stopped, an engine is never running again, whatever is done to it.
pub proof fn law_stopped_is_final(engine: EngineView, ops: Seq<EngineOp>)
    requires
        engine.state == EngineState::Stopped,
    ensures
        engine.run(ops).state == EngineState::Stopped,
    decreases ops.len(),
{
    if ops.len() > 0 {
        law_stopped_is_final(engine, ops.drop_last());
    }
}

/// How often a history brings an engine to running: once for each
/// `finish_start` that reports success to an engine that is starting.
pub open spec fn times_started(engine: EngineView, ops: Seq<EngineOp>) -> nat
    decreases ops.len(),
{
    if ops.len() == 0 {
        0
    } else {
        times_started(engine, ops.drop_last()) + if engine.run(ops.drop_last()).state
            == EngineState::Starting && ops.last() == (EngineOp::FinishStart { bound: true }) {
            1nat
        } else {
            0nat
        }
    }
}

/// An engine is brought to running at most once in its life, so there is at
/// most one accept loop for it. An engine that was running or stopped to
/// begin with is never started again.
pub proof fn law_started_at_most_once(engine: EngineView, ops: Seq<EngineOp>)
    ensures
        times_started(engine, ops) <= 1,
        engine.state == EngineState::Running || engine.state == EngineState::Stopping
            || engine.state == EngineState::Stopped ==> times_started(engine, ops) == 0 && (
        engine.run(ops).state == EngineState::Running || engine.run(ops).state
            == EngineState::Stopping || engine.run(ops).state == EngineState::Stopped),
        times_started(engine, ops) == 1 ==> engine.run(ops).state == EngineState::Running
            || engine.run(ops).state == EngineState::Stopped,
        engine.state != EngineState::Stopping ==> engine.run(ops).state != EngineState::Stopping,
    decreases ops.len(),
{
    if ops.len() > 0 {
        law_started_at_most_once(engine, ops.drop_last());
    }
}

/// What happens to one peer leaves the others alone: registering a peer or
/// closing its session changes neither the state of the engine nor whether
/// any other peer is connected, and a peer whose session is closed is no
/// longer connected.
pub proof fn law_peers_are_isolated(engine: EngineView, peer: PeerView, other: Seq<char>)
    requires
        distinct_ids(engine.peers),
        other != peer.id,
    ensures
        engine.register(peer).state == engine.state,
        engine.close(peer.id).state == engine.state,
        has_peer(engine.register(peer).peers, other) == has_peer(engine.peers, other),
        has_peer(engine.close(peer.id).peers, other) == has_peer(engine.peers, other),
        has_peer(engine.register(peer).peers, peer.id),
        !has_peer(engine.close(peer.id).peers, peer.id),
{
    lemma_with_peer_distinct(engine.peers, peer);
    lemma_without_peer_distinct(engine.peers, peer.id);
    let added = engine.register(peer).peers;
    let removed = engine.close(peer.id).peers;
    if has_peer(engine.peers, other) {
        let j = peer_index(engine.peers, other);
        assert(added[j].id == other);
        if has_peer(engine.peers, peer.id) {
            let k = peer_index(engine.peers, peer.id);
            let moved = if j < k {
                j
            } else {
                j - 1
            };
            assert(removed[moved].id == other);
        }
    }
    if has_peer(added, other) {
        let j = peer_index(added, other);
        if j < engine.peers.len() {
            assert(engine.peers[j].id == other);
        }
    }
    if has_peer(removed, other) {
        let j = peer_index(removed, other);
        if has_peer(engine.peers, peer.id) {
            let k = peer_index(engine.peers, peer.id);
            let from = if j < k {
                j
            } else {
                j + 1
            };
            assert(engine.peers[from].id == other);
        }
    }
}

/// At every point of a history that respects the keys, the number of
/// connected peers is the number it began with, plus the connect notices
/// produced so far, minus the disconnect notices produced so far. Nobody is
/// counted twice and no removal is missed.
pub proof fn law_connections_match_notices(engine: EngineView, ops: Seq<EngineOp>)
    requires
        distinct_ids(engine.peers),
        engine.respects_keys(ops),
    ensures
        distinct_ids(engine.run(ops).peers),
        engine.run(ops).peers.len() == engine.peers.len() + notices_of(
            ops,
            NoticeKind::Connected,
        ) - notices_of(ops, NoticeKind::Disconnected),
    decreases ops.len(),
{
    if ops.len() > 0 {
        let front = ops.drop_last();
        law_connections_match_notices(engine, front);
        let before = engine.run(front);
        match ops.last() {
            EngineOp::Register { peer } => {
                lemma_with_peer_distinct(before.peers, peer);
            },
            EngineOp::Close { id } => {
                lemma_without_peer_distinct(before.peers, id);
            },
            _ => {},
        }
    }
}

/// For an engine that began with nobody connected, the number of connected
/// peers is the number of connect notices minus the number of disconnect
/// notices, at every point of a history that respects the keys.
pub proof fn law_connections_from_empty(role: Role, ops: Seq<EngineOp>)
    requires
        EngineView::initial(role).respects_keys(ops),
    ensures
        EngineView::initial(role).run(ops).peers.len() == notices_of(ops, NoticeKind::Connected)
            - notices_of(ops, NoticeKind::Disconnected),
{
    law_connections_match_notices(EngineView::initial(role), ops);
}

/// An engine that is not running refuses every send with `NotRunning`,
/// whatever the target and the content.
pub proof fn law_send_needs_a_running_engine(
    engine: EngineView,
    content: MessageType,
    target: Option<Seq<char>>,
)
    requires
        !engine.is_running(),
    ensures
        engine.send_decision(content, target) == SendDecision::NotRunning,
{
}

/// A running server refuses a send whose target names no connected peer
/// with `NoSuchConnection`, whatever the content: no delivery is made, so
/// no byte reaches any queue.
pub proof fn law_unknown_target_is_refused(
    engine: EngineView,
    content: MessageType,
    target: Option<Seq<char>>,
)
    requires
        engine.is_running(),
        engine.role == Role::Server,
        target matches Some(id) ==> !has_peer(engine.peers, id),
    ensures
        engine.send_decision(content, target) == SendDecision::NoSuchConnection,
{
}

/// A delivery goes to one peer, and that peer is connected. For a server it
/// is the peer that the target names.
pub proof fn law_delivery_reaches_the_target(
    engine: EngineView,
    content: MessageType,
    target: Option<Seq<char>>,
)
    requires
        engine.send_decision(content, target) is Deliver,
    ensures
        engine.is_running(),
        has_peer(engine.peers, engine.send_decision(content, target)->id),
        Some(engine.send_decision(content, target)->bytes) == content.spec_payload(),
        engine.role == Role::Server ==> target == Some(engine.send_decision(content, target)->id),
{
    if engine.role == Role::Client {
        assert(engine.peers[0].id == engine.peers[0].id);
    }
}

/// One operation on the session of a peer.
pub enum SessionOp {
    /// `PeerReader::on_read`, told whether the read brought bytes
    Read { data: bool },
    /// `TransportEngine::close_peer`
    Close,
}

impl ReaderView {
    /// The state of the reader after one operation.
    pub open spec fn apply(self, op: SessionOp) -> ReaderView {
        match op {
            SessionOp::Read { data } => self.read(data),
            SessionOp::Close => self.close(),
        }
    }

    /// The message that one operation produces, if any: a read that brings
    /// bytes to an open reader produces received traffic, and closing a
    /// session that is not closed produces the disconnect notice.
    pub open spec fn produces(self, op: SessionOp) -> Option<NoticeKind> {
        match op {
            SessionOp::Read { data } => if self.phase == ReaderPhase::Open && data {
                Some(NoticeKind::Received)
            } else {
                None
            },
            SessionOp::Close => if self.phase != ReaderPhase::Closed {
                Some(NoticeKind::Disconnected)
            } else {
                None
            },
        }
    }

    /// The state of the reader after a history.
    pub open spec fn run(self, ops: Seq<SessionOp>) -> ReaderView
        decreases ops.len(),
    {
        if ops.len() == 0 {
            self
        } else {
            self.run(ops.drop_last()).apply(ops.last())
        }
    }

    /// The messages that a history produces, in order.
    pub open spec fn produced(self, ops: Seq<SessionOp>) -> Seq<NoticeKind>
        decreases ops.len(),
    {
        if ops.len() == 0 {
            Seq::empty()
        } else {
            let before = self.produced(ops.drop_last());
            match self.run(ops.drop_last()).produces(ops.last()) {
                Some(kind) => before.push(kind),
                None => before,
            }
        }
    }
}

/// Everything that is produced about one peer, from the moment it is
/// registered: the connect notice, then what its session produces.
pub open spec fn session_log(reader: ReaderView, ops: Seq<SessionOp>) -> Seq<NoticeKind> {
    seq![NoticeKind::Connected] + reader.produced(ops)
}

proof fn lemma_session_produced(reader: ReaderView, ops: Seq<SessionOp>)
    requires
        reader.phase == ReaderPhase::Open,
    ensures
        forall|i: int|
            0 <= i < reader.produced(ops).len() ==> #[trigger] reader.produced(ops)[i]
                != NoticeKind::Connected,
        forall|i: int|
            0 <= i < reader.produced(ops).len() && #[trigger] reader.produced(ops)[i]
                == NoticeKind::Disconnected ==> i == reader.produced(ops).len() - 1 && reader.run(
                ops,
            ).phase == ReaderPhase::Closed,
        reader.run(ops).id == reader.id,
    decreases ops.len(),
{
    if ops.len() > 0 {
        let front = ops.drop_last();
        lemma_session_produced(reader, front);
        let before = reader.produced(front);
        let state = reader.run(front);
        match state.produces(ops.last()) {
            Some(kind) => {
                assert(state.phase != ReaderPhase::Closed);
                assert forall|i: int|
                    0 <= i < before.len() implies #[trigger] before[i]
                    != NoticeKind::Disconnected by {}
                let after = before.push(kind);
                assert forall|i: int|
                    0 <= i < after.len() && #[trigger] after[i]
                        == NoticeKind::Disconnected implies i == after.len() - 1 && reader.run(
                    ops,
                ).phase == ReaderPhase::Closed by {
                    if i < before.len() {
                        assert(after[i] == before[i]);
                    }
                }
            },
            None => {
                assert forall|i: int|
                    0 <= i < before.len() && #[trigger] before[i]
                        == NoticeKind::Disconnected implies reader.run(ops).phase
                    == ReaderPhase::Closed by {}
            },
        }
    }
}

/// The messages about one peer come in the order of its session. The
/// connect notice is first and is the only one. Whatever is read and however
/// often the session is closed, the disconnect notice comes at most once and
/// nothing follows it. So the connect notice strictly precedes every
/// received message of the peer, and every received message strictly
/// precedes the disconnect notice.
pub proof fn law_session_is_bracketed(reader: ReaderView, ops: Seq<SessionOp>)
    requires
        reader.phase == ReaderPhase::Open,
    ensures
        session_log(reader, ops)[0] == NoticeKind::Connected,
        forall|i: int|
            0 < i < session_log(reader, ops).len() ==> #[trigger] session_log(reader, ops)[i]
                != NoticeKind::Connected,
        forall|i: int|
            0 <= i < session_log(reader, ops).len() && #[trigger] session_log(reader, ops)[i]
                == NoticeKind::Disconnected ==> i == session_log(reader, ops).len() - 1,
        forall|i: int, j: int|
            0 <= i < session_log(reader, ops).len() && 0 <= j < session_log(reader, ops).len()
                && #[trigger] session_log(reader, ops)[i] == NoticeKind::Received
                && #[trigger] session_log(reader, ops)[j] == NoticeKind::Disconnected ==> 0 < i
                < j,
{
    lemma_session_produced(reader, ops);
    let produced = reader.produced(ops);
    let log = session_log(reader, ops);
    assert forall|i: int| 0 < i < log.len() implies #[trigger] log[i] == produced[i - 1] by {}
    assert forall|i: int| 0 < i < log.len() implies #[trigger] log[i]
        != NoticeKind::Connected by {
        assert(log[i] == produced[i - 1]);
    }
    assert forall|i: int|
        0 <= i < log.len() && #[trigger] log[i] == NoticeKind::Disconnected implies i == log.len()
        - 1 by {
        if i > 0 {
            assert(log[i] == produced[i - 1]);
        }
    }
}

/// The phase of the accept loop after a history of events, each given by
/// whether it asks the loop to stop.
pub open spec fn accept_phase_run(phase: AcceptPhase, stops: Seq<bool>) -> AcceptPhase
    decreases stops.len(),
{
    if stops.len() == 0 {
        phase
    } else {
        accept_phase_after(accept_phase_run(phase, stops.drop_last()), stops.last())
    }
}

/// How often the accept loop is told to exit in a history of events: once
/// for each event that asks it to stop while it is listening.
pub open spec fn accept_exits(phase: AcceptPhase, stops: Seq<bool>) -> nat
    decreases stops.len(),
{
    if stops.len() == 0 {
        0
    } else {
        accept_exits(phase, stops.drop_last()) + if accept_phase_run(phase, stops.drop_last())
            == AcceptPhase::Listening && stops.last() {
            1nat
        } else {
            0nat
        }
    }
}

/// The accept loop exits at most once, however many stop requests arrive
/// and whatever else happens; once it has exited it stays so.
pub proof fn law_accept_loop_exits_once(phase: AcceptPhase, stops: Seq<bool>)
    ensures
        accept_exits(phase, stops) <= 1,
        phase == AcceptPhase::Exited ==> accept_exits(phase, stops) == 0 && accept_phase_run(
            phase,
            stops,
        ) == AcceptPhase::Exited,
        accept_exits(phase, stops) == 1 ==> accept_phase_run(phase, stops) == AcceptPhase::Exited,
    decreases stops.len(),
{
    if stops.len() > 0 {
        law_accept_loop_exits_once(phase, stops.drop_last());
    }
}

} // verus!
