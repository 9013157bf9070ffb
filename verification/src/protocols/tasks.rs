//! The decisions of the three kinds of background task that serve an
//! engine: the accept loop, and the reader and the writer of each peer.
//! Each is a small state machine. The task performs the network operation,
//! reports what came of it, and does what it is told.

use bytes::Bytes;
use vstd::prelude::*;

use crate::protocols::address::SocketAddress;
use crate::protocols::common::ConnectionInfo;
use crate::protocols::common::Message;
use crate::protocols::common::MessageDirection;
use crate::protocols::common::MessageType;
use crate::utils::text::decode_lossy;
use crate::utils::text::utf8_lossy_text;

verus! {

/// Where the reader of one peer is.
#[derive(Debug, Clone, Copy, PartialEq, Eq, Structural)]
pub enum ReaderPhase {
    /// Reading; what arrives is passed on.
    Open,
    /// The stream has ended or failed; the session is to be closed.
    Ended,
    /// The session is closed.
    Closed,
}

/// The state of a reader as contracts see it.
pub struct ReaderView {
    pub id: Seq<char>,
    pub addr: SocketAddress,
    pub phase: ReaderPhase,
}

impl ReaderView {
    /// After a read that brought bytes (`data`) or brought none or failed.
    pub open spec fn read(self, data: bool) -> ReaderView {
        if self.phase == ReaderPhase::Open && !data {
            ReaderView { phase: ReaderPhase::Ended, ..self }
        } else {
            self
        }
    }

    /// After the session has been closed.
    pub open spec fn close(self) -> ReaderView {
        ReaderView { phase: ReaderPhase::Closed, ..self }
    }
}

/// What a read on a peer's stream came to.
pub enum ReadEvent<'a> {
    /// The bytes that were read. No bytes means that the stream has ended.
    Chunk(&'a [u8]),
    /// The read failed.
    Failed,
}

impl<'a> ReadEvent<'a> {
    /// Whether the read brought any bytes.
    pub open spec fn has_data(self) -> bool {
        self matches ReadEvent::Chunk(bytes) && bytes@.len() > 0
    }
}

/// What the reader of a peer is to do next.
pub enum ReaderAction {
    /// Pass this message on to the consumer and read again.
    Forward(Message),
    /// Close the session through the engine, then end the task.
    Close,
    /// The session is closed: end the task.
    Idle,
}

/// The state of the task that reads from one peer.
pub struct PeerReader {
    peer: ConnectionInfo,
    phase: ReaderPhase,
}

impl View for PeerReader {
    type V = ReaderView;

    closed spec fn view(&self) -> ReaderView {
        ReaderView {
            id: self.peer.connection_id@,
            addr: self.peer.remote_addr,
            phase: self.phase,
        }
    }
}

impl PeerReader {
    /// The reader of a peer that has just connected.
    pub(crate) fn new(peer: ConnectionInfo) -> (reader: PeerReader)
        ensures
            reader@ == (ReaderView {
                id: peer.connection_id@,
                addr: peer.remote_addr,
                phase: ReaderPhase::Open,
            }),
    {
        PeerReader { peer, phase: ReaderPhase::Open }
    }

    /// Who the peer is.
    pub fn peer(&self) -> (peer: ConnectionInfo)
        ensures
            peer.connection_id@ == self@.id,
            peer.remote_addr == self@.addr,
    {
        self.peer.duplicate()
    }

    /// Where the reader is.
    pub fn phase(&self) -> (phase: ReaderPhase)
        ensures
            phase == self@.phase,
    {
        self.phase
    }

    /// Whether the session is closed.
    pub fn is_closed(&self) -> (closed: bool)
        ensures
            closed == (self@.phase == ReaderPhase::Closed),
    {
        self.phase == ReaderPhase::Closed
    }

    pub(crate) fn mark_closed(&mut self) -> (peer: ConnectionInfo)
        ensures
            final(self)@ == old(self)@.close(),
            peer.connection_id@ == old(self)@.id,
            peer.remote_addr == old(self)@.addr,
    {
        self.phase = ReaderPhase::Closed;
        self.peer.duplicate()
    }

    /// Decides what follows a read. While the reader is open, bytes become a
    /// received message of this peer whose text is the bytes decoded as
    /// UTF-8, with U+FFFD for what does not decode; the end of the stream
    /// and a failure alike end the reading and ask for the session to be
    /// closed. Once reading has ended nothing is passed on any more.
    pub fn on_read(&mut self, event: ReadEvent<'_>) -> (action: ReaderAction)
        ensures
            final(self)@ == old(self)@.read(event.has_data()),
            match old(self)@.phase {
                ReaderPhase::Open => if event.has_data() {
                    action matches ReaderAction::Forward(m) && m.direction
                        == MessageDirection::Received && (m.content matches MessageType::Text(text)
                        && text@ == utf8_lossy_text(event->Chunk_0@)) && (
                    m.connection_info matches Some(info) && info.connection_id@ == old(self)@.id
                        && info.remote_addr == old(self)@.addr)
                } else {
                    action is Close
                },
                ReaderPhase::Ended => action is Close,
                ReaderPhase::Closed => action is Idle,
            },
    {
        match self.phase {
            ReaderPhase::Open => {
                match event {
                    ReadEvent::Chunk(bytes) => {
                        if bytes.len() > 0 {
                            let text = decode_lossy(bytes);
                            return ReaderAction::Forward(
                                Message::new_received(
                                    MessageType::Text(text),
                                    Some(self.peer.duplicate()),
                                ),
                            );
                        }
                    },
                    ReadEvent::Failed => {},
                }
                self.phase = ReaderPhase::Ended;
                ReaderAction::Close
            },
            ReaderPhase::Ended => ReaderAction::Close,
            ReaderPhase::Closed => ReaderAction::Idle,
        }
    }
}

/// What the writer of a peer has to report.
pub enum WriteEvent {
    /// A buffer came off the peer's outbound queue.
    Dequeued(Bytes),
    /// The outbound queue is closed and empty.
    QueueClosed,
    /// Writing to the peer failed.
    WriteFailed,
}

/// What the writer of a peer is to do next.
pub enum WriterAction {
    /// Write these bytes to the peer, then take the next buffer.
    Write(Bytes),
    /// End the task.
    Finish,
}

/// The state of the task that writes to one peer.
pub struct PeerWriter {
    finished: bool,
}

impl PeerWriter {
    /// Whether the writer has ended.
    pub closed spec fn finished(&self) -> bool {
        self.finished
    }

    /// The writer of a peer that has just connected.
    pub fn new() -> (writer: PeerWriter)
        ensures
            !writer.finished(),
    {
        PeerWriter { finished: false }
    }

    /// Whether the writer has ended.
    pub fn is_finished(&self) -> (r: bool)
        ensures
            r == self.finished(),
    {
        self.finished
    }

    /// Decides what follows an event. A buffer taken off the queue is to be
    /// written as it is; a closed queue and a failed write end the writer.
    /// A writer that has ended writes nothing more.
    pub fn on_event(&mut self, event: WriteEvent) -> (action: WriterAction)
        ensures
            final(self).finished() == (old(self).finished() || !(event is Dequeued)),
            match event {
                WriteEvent::Dequeued(bytes) => if old(self).finished() {
                    action is Finish
                } else {
                    action matches WriterAction::Write(out) && out == bytes
                },
                _ => action is Finish,
            },
    {
        if self.finished {
            return WriterAction::Finish;
        }
        match event {
            WriteEvent::Dequeued(bytes) => WriterAction::Write(bytes),
            WriteEvent::QueueClosed => {
                self.finished = true;
                WriterAction::Finish
            },
            WriteEvent::WriteFailed => {
                self.finished = true;
                WriterAction::Finish
            },
        }
    }
}

/// Where the accept loop is.
#[derive(Debug, Clone, Copy, PartialEq, Eq, Structural)]
pub enum AcceptPhase {
    Listening,
    Exited,
}

/// What the accept loop has to report.
pub enum AcceptEvent {
    /// A peer has connected from this address; `id` is the key it is to be
    /// known by.
    Incoming { addr: SocketAddress, id: String },
    /// Accepting a connection failed.
    AcceptFailed,
    /// The stop request arrived on the control queue.
    StopRequested,
    /// The control queue was closed by the engine.
    ControlClosed,
}

/// What the accept loop is to do next.
pub enum AcceptAction {
    /// Register this peer with the engine, start its reader and its writer,
    /// and go on accepting.
    Serve { addr: SocketAddress, id: String },
    /// Go on accepting.
    Continue,
    /// Leave the loop.
    Exit,
    /// The loop has been left already: do nothing.
    Idle,
}

impl AcceptEvent {
    /// Whether the event asks the loop to stop. A closed control queue asks
    /// for it just as a stop request does.
    pub open spec fn is_stop(self) -> bool {
        self is StopRequested || self is ControlClosed
    }
}

/// The phase of the accept loop after an event.
pub open spec fn accept_phase_after(phase: AcceptPhase, stop: bool) -> AcceptPhase {
    if stop {
        AcceptPhase::Exited
    } else {
        phase
    }
}

/// The state of the accept loop of one engine.
pub struct AcceptLoop {
    phase: AcceptPhase,
}

impl AcceptLoop {
    /// Where the loop is.
    pub closed spec fn spec_phase(&self) -> AcceptPhase {
        self.phase
    }

    /// The accept loop of an engine that has just started.
    pub fn new() -> (accept: AcceptLoop)
        ensures
            accept.spec_phase() == AcceptPhase::Listening,
    {
        AcceptLoop { phase: AcceptPhase::Listening }
    }

    /// Where the loop is.
    pub fn phase(&self) -> (phase: AcceptPhase)
        ensures
            phase == self.spec_phase(),
    {
        self.phase
    }

    /// Decides what follows an event. While listening, a connection is to be
    /// served under the key given, a failed accept is passed over, and a
    /// stop request or a closed control queue ends the loop. Once the loop
    /// has been left, every event is answered with `Idle`.
    pub fn on_event(&mut self, event: AcceptEvent) -> (action: AcceptAction)
        ensures
            final(self).spec_phase() == accept_phase_after(old(self).spec_phase(), event.is_stop()),
            match old(self).spec_phase() {
                AcceptPhase::Exited => action is Idle,
                AcceptPhase::Listening => match event {
                    AcceptEvent::Incoming { addr, id } => action matches AcceptAction::Serve {
                        addr: a,
                        id: i,
                    } && a == addr && i == id,
                    AcceptEvent::AcceptFailed => action is Continue,
                    AcceptEvent::StopRequested => action is Exit,
                    AcceptEvent::ControlClosed => action is Exit,
                },
            },
    {
        match self.phase {
            AcceptPhase::Exited => {
                match event {
                    AcceptEvent::StopRequested => {},
                    AcceptEvent::ControlClosed => {},
                    _ => {},
                }
                AcceptAction::Idle
            },
            AcceptPhase::Listening => match event {
                AcceptEvent::Incoming { addr, id } => AcceptAction::Serve { addr, id },
                AcceptEvent::AcceptFailed => AcceptAction::Continue,
                AcceptEvent::StopRequested => {
                    self.phase = AcceptPhase::Exited;
                    AcceptAction::Exit
                },
                AcceptEvent::ControlClosed => {
                    self.phase = AcceptPhase::Exited;
                    AcceptAction::Exit
                },
            },
        }
    }
}

} // verus!
