//! One reader of the snapshot stream: what it hands to its consumer for
//! each thing that it finds, or does not find, in the broadcast channel.

use crate::api::MonitorResponse;
use crate::wake_watcher::WakeWatcher;
use std::task::Waker;
use vstd::prelude::*;

verus! {

/// What a reader found when it looked into the broadcast channel without
/// waiting.
#[derive(Debug)]
pub enum Received {
    /// The next snapshot.
    Item(MonitorResponse),
    /// Nothing, and nothing will come: the channel is closed.
    Closed,
    /// Nothing yet.
    Empty,
    /// The reader fell behind, and this many snapshots are lost to it.
    Lagged(u64),
}

/// The kind of a failure of the stream.
#[derive(Clone, Copy, Debug, PartialEq, Eq, Structural)]
pub enum Code {
    /// What was asked for is not there.
    NotFound,
    /// Something went wrong on the serving side.
    Internal,
}

/// A failure of the stream, as the consumer is told of it.
#[derive(Debug)]
pub struct StreamError {
    pub code: Code,
    pub message: String,
}

/// What a reader hands to its consumer.
#[derive(Debug)]
pub enum Polled {
    /// A snapshot, or the failure of the stream.
    Ready(Result<MonitorResponse, StreamError>),
    /// Nothing yet: the reader will be woken.
    Pending,
}

/// Whether `polled` tells of a failure of the given kind and wording.
pub open spec fn fails_with(polled: Polled, code: Code, message: Seq<char>) -> bool {
    polled matches Polled::Ready(Err(error)) && error.code == code && error.message@ == message
}

/// Decides what a reader hands on.
///
/// A snapshot goes to the consumer as it is. A closed channel and a lagging
/// reader are failures of their own, which the consumer is told of. When
/// there is nothing yet, the reader's waker is registered with `watcher`, so
/// that the next publication wakes the reader, and the consumer is told to
/// wait. Only in that case does the registry change.
pub fn poll_next(watcher: &mut WakeWatcher, received: Received, waker: Waker) -> (polled: Polled)
    ensures
        match received {
            Received::Item(snapshot) => polled == Polled::Ready(
                Ok::<MonitorResponse, StreamError>(snapshot),
            ) && final(watcher)@ == old(watcher)@,
            Received::Closed => fails_with(polled, Code::NotFound, "The monitoring server closed."@)
                && final(watcher)@ == old(watcher)@,
            Received::Empty => polled is Pending && final(watcher)@ == old(watcher)@.push(waker),
            Received::Lagged(_) => fails_with(
                polled,
                Code::Internal,
                "The receiver lagged behind for some reason."@,
            ) && final(watcher)@ == old(watcher)@,
        },
{
    match received {
        Received::Item(snapshot) => Polled::Ready(Ok(snapshot)),
        Received::Closed => Polled::Ready(
            Err(
                StreamError {
                    code: Code::NotFound,
                    message: "The monitoring server closed.".to_owned(),
                },
            ),
        ),
        Received::Empty => {
            watcher.add_waker(waker);
            Polled::Pending
        },
        Received::Lagged(_) => Polled::Ready(
            Err(
                StreamError {
                    code: Code::Internal,
                    message: "The receiver lagged behind for some reason.".to_owned(),
                },
            ),
        ),
    }
}

} // verus!
