//! The message link between the snapshot producer and the animator: two
//! unbounded queues, one each way, that neither side ever blocks on.
use vstd::prelude::*;
use crossbeam_channel::{Receiver, Sender};
use crate::geometry::WindowSnapshot;

verus! {

#[verifier::external_type_specification]
#[verifier::external_body]
#[verifier::reject_recursive_types(T)]
pub struct ExSender<T>(crossbeam_channel::Sender<T>);

#[verifier::external_type_specification]
#[verifier::external_body]
#[verifier::reject_recursive_types(T)]
pub struct ExReceiver<T>(crossbeam_channel::Receiver<T>);

/// Relies on `crossbeam_channel::unbounded`: a new queue with no size limit,
/// as its sending and its receiving end.
#[verifier::external_body]
fn open_queue<T>() -> (r: (Sender<T>, Receiver<T>)) {
    crossbeam_channel::unbounded()
}

/// Relies on `crossbeam_channel::Sender::send`: enqueues without blocking on
/// an unbounded queue; `false` when the receiving end is gone.
#[verifier::external_body]
fn post<T>(s: &Sender<T>, m: T) -> (delivered: bool) {
    s.send(m).is_ok()
}

/// Relies on `crossbeam_channel::Receiver::try_recv`: the oldest queued
/// message, taken off the queue, or `None` at once when there is none.
#[verifier::external_body]
fn poll<T>(r: &Receiver<T>) -> (m: Option<T>) {
    r.try_recv().ok()
}

/// Relies on `crossbeam_channel::Receiver::len`: how many messages are
/// queued at the moment of the call.
#[verifier::external_body]
fn queued<T>(r: &Receiver<T>) -> (n: usize) {
    r.len()
}

/// Sent from the animator's side to the producer.
#[derive(Clone, Copy, Debug, PartialEq, Eq, Structural)]
pub enum FilterMessage {
    /// The animator is gone; the producer should stop.
    CloseConnection,
}

/// Sent from the producer to the animator's side.
#[derive(Clone, Copy, Debug, PartialEq, Eq, Structural)]
pub enum ServerMessage {
    /// The focused window was observed with this bounding box.
    Snapshot(WindowSnapshot),
}

/// The animator's end of the link.
pub struct FilterLink {
    send: Sender<FilterMessage>,
    receive: Receiver<ServerMessage>,
}

/// The producer's end of the link.
pub struct ServerLink {
    send: Sender<ServerMessage>,
    receive: Receiver<FilterMessage>,
}

/// A fresh link: the animator's end and the producer's end.
pub fn connect() -> (r: (FilterLink, ServerLink)) {
    let (to_server, from_filter) = open_queue::<FilterMessage>();
    let (to_filter, from_server) = open_queue::<ServerMessage>();
    (
        FilterLink { send: to_server, receive: from_server },
        ServerLink { send: to_filter, receive: from_filter },
    )
}

impl FilterLink {
    /// Reads the queue, without blocking, as many times as it reported
    /// messages when the call began, and returns the snapshots read in the
    /// order they were read. Messages that arrive meanwhile stay queued for
    /// the next call.
    pub fn drain(&self) -> (r: Vec<WindowSnapshot>) {
        let n = queued(&self.receive);
        let mut out: Vec<WindowSnapshot> = Vec::new();
        let mut i: usize = 0;
        while i < n
            invariant
                i <= n,
                out@.len() <= i,
            decreases n - i,
        {
            match poll(&self.receive) {
                Some(ServerMessage::Snapshot(s)) => out.push(s),
                None => {},
            }
            i += 1;
        }
        out
    }

    /// Asks the producer to stop. Best effort: where the producer has
    /// already gone, the request is moot and nothing is reported.
    pub fn close(&self) {
        let _delivered = post(&self.send, FilterMessage::CloseConnection);
    }
}

impl ServerLink {
    /// Hands a snapshot to the animator without blocking. Where the animator
    /// is gone the snapshot is dropped.
    pub fn publish(&self, s: WindowSnapshot) {
        let _delivered = post(&self.send, ServerMessage::Snapshot(s));
    }

    /// Whether the animator has asked the producer to stop; never blocks.
    pub fn close_requested(&self) -> (r: bool) {
        match poll(&self.receive) {
            Some(FilterMessage::CloseConnection) => true,
            None => false,
        }
    }
}

} // verus!
