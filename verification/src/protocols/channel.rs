//! The outside types that traffic moves through: bounded queues between
//! tasks, and the byte buffers they carry. Everything here is trusted.

use bytes::Bytes;
use tokio::sync::mpsc::Receiver;
use tokio::sync::mpsc::Sender;
use tokio::sync::mpsc::error::TrySendError;
use vstd::prelude::*;

use crate::protocols::common::Message;

verus! {

#[verifier::external_type_specification]
#[verifier::external_body]
#[verifier::reject_recursive_types(T)]
pub struct ExSender<T>(Sender<T>);

#[verifier::external_type_specification]
#[verifier::external_body]
#[verifier::reject_recursive_types(T)]
pub struct ExReceiver<T>(Receiver<T>);

#[verifier::external_type_specification]
#[verifier::external_body]
pub struct ExBytes(Bytes);

/// The bytes that a buffer holds, in order.
pub uninterp spec fn bytes_contents(b: Bytes) -> Seq<u8>;

/// The largest capacity a bounded queue can be made with.
pub open spec fn max_queue_capacity() -> int {
    usize::MAX as int / 8
}

/// What became of an item offered to a bounded queue without waiting.
#[derive(Debug, Clone, Copy, PartialEq, Eq, Structural)]
pub enum Enqueue {
    /// The item is in the queue.
    Queued,
    /// The queue holds as many items as it was made for; the item is dropped.
    Full,
    /// The receiving end is gone; the item is dropped.
    Closed,
}

/// Whether a sending end and a receiving end are the two ends of one queue
/// of byte buffers: what is offered to the one comes out of the other.
pub uninterp spec fn bytes_queue_ends(tx: Sender<Bytes>, rx: Receiver<Bytes>) -> bool;

/// Whether a sending end and a receiving end are the two ends of one queue
/// of messages.
pub uninterp spec fn message_queue_ends(tx: Sender<Message>, rx: Receiver<Message>) -> bool;

/// Whether a sending end and a receiving end are the two ends of one queue
/// of stop requests.
pub uninterp spec fn signal_queue_ends(tx: Sender<()>, rx: Receiver<()>) -> bool;

/// `tokio::sync::mpsc::channel` for byte buffers: a new bounded queue and
/// its two ends. The capacities left out are those it panics on.
#[verifier::external_body]
pub(crate) fn bytes_queue(capacity: usize) -> (ends: (Sender<Bytes>, Receiver<Bytes>))
    requires
        0 < capacity <= max_queue_capacity(),
    ensures
        bytes_queue_ends(ends.0, ends.1),
{
    tokio::sync::mpsc::channel(capacity)
}

/// `tokio::sync::mpsc::channel` for messages: a new bounded queue and its
/// two ends. The capacities left out are those it panics on.
#[verifier::external_body]
pub(crate) fn message_queue(capacity: usize) -> (ends: (Sender<Message>, Receiver<Message>))
    requires
        0 < capacity <= max_queue_capacity(),
    ensures
        message_queue_ends(ends.0, ends.1),
{
    tokio::sync::mpsc::channel(capacity)
}

/// `tokio::sync::mpsc::channel` for stop requests: a new bounded queue and
/// its two ends. The capacities left out are those it panics on.
#[verifier::external_body]
pub(crate) fn signal_queue(capacity: usize) -> (ends: (Sender<()>, Receiver<()>))
    requires
        0 < capacity <= max_queue_capacity(),
    ensures
        signal_queue_ends(ends.0, ends.1),
{
    tokio::sync::mpsc::channel(capacity)
}

/// `Sender::try_send`: offers an item without waiting. Which of the three
/// outcomes comes back depends on what the other tasks have done to the
/// queue, so nothing is promised of it.
#[verifier::external_body]
pub(crate) fn try_enqueue<T>(tx: &Sender<T>, item: T) -> (r: Enqueue)
{
    match tx.try_send(item) {
        Ok(()) => Enqueue::Queued,
        Err(TrySendError::Full(_)) => Enqueue::Full,
        Err(TrySendError::Closed(_)) => Enqueue::Closed,
    }
}

/// `Sender::clone`: another handle on the same queue. The handle is a
/// reference to the queue and the copy holds the same reference.
pub assume_specification<T>[ <Sender<T> as Clone>::clone ](tx: &Sender<T>) -> (r: Sender<T>)
    ensures
        r == *tx,
;

/// `Bytes::clone`: a buffer with the same contents.
pub assume_specification[ <Bytes as Clone>::clone ](b: &Bytes) -> (r: Bytes)
    ensures
        bytes_contents(r) == bytes_contents(*b),
;

/// `Bytes::from` on a vector: a buffer holding the vector's bytes.
#[verifier::external_body]
pub(crate) fn bytes_from_vec(v: Vec<u8>) -> (b: Bytes)
    ensures
        bytes_contents(b) == v@,
{
    Bytes::from(v)
}

/// `Bytes::to_vec`, the `to_vec` of the slice that a buffer dereferences to:
/// the bytes of the buffer, copied into a vector.
#[verifier::external_body]
pub(crate) fn bytes_to_vec(b: &Bytes) -> (v: Vec<u8>)
    ensures
        v@ == bytes_contents(*b),
{
    b.to_vec()
}

} // verus!
