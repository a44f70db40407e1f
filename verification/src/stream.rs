//! How a subscription stream answers a poll, given what its channel hands
//! over without waiting.
use vstd::prelude::*;

verus! {

/// What a non-blocking receive on a subscription channel gives.
#[derive(Clone, Debug, PartialEq, Eq)]
pub enum TryRecvOutcome<T> {
    /// An item was waiting.
    Received(T),
    /// Nothing is waiting yet.
    Empty,
    /// The sending side is gone; nothing more will come.
    Closed,
    /// The receiver fell behind and this many items were dropped.
    Lagged(u64),
}

/// How a stream answers a poll.
#[derive(Clone, Debug, PartialEq, Eq)]
pub enum StreamPoll<T> {
    /// The next item.
    Ready(T),
    /// No item now: the task's waker is woken so that it polls again.
    Pending,
    /// The stream has ended.
    Ended,
}

/// The answer to a poll for each receive outcome: an item is handed on, an
/// empty or lagging channel makes the stream pending (and wakes the task),
/// a closed channel ends the stream.
pub open spec fn stream_step<T>(received: TryRecvOutcome<T>) -> StreamPoll<T> {
    match received {
        TryRecvOutcome::Received(item) => StreamPoll::Ready(item),
        TryRecvOutcome::Empty => StreamPoll::Pending,
        TryRecvOutcome::Closed => StreamPoll::Ended,
        TryRecvOutcome::Lagged(_) => StreamPoll::Pending,
    }
}

/// Answers a poll of a subscription stream from what its channel gave.
pub fn poll_step<T>(received: TryRecvOutcome<T>) -> (p: StreamPoll<T>)
    ensures
        p == stream_step(received),
        received matches TryRecvOutcome::Received(item) ==> p == StreamPoll::Ready(item),
        received is Empty ==> p is Pending,
        received is Lagged ==> p is Pending,
        p is Ended <==> received is Closed,
{
    match received {
        TryRecvOutcome::Received(item) => StreamPoll::Ready(item),
        TryRecvOutcome::Empty => StreamPoll::Pending,
        TryRecvOutcome::Closed => StreamPoll::Ended,
        TryRecvOutcome::Lagged(_) => StreamPoll::Pending,
    }
}

/// A poll hands on exactly the item that was received; a lagging receiver
/// (however far behind) or an empty channel leaves the stream pending; and
/// the stream ends exactly when the channel is closed.
pub proof fn stream_ends_only_when_closed<T>(received: TryRecvOutcome<T>, item: T, lag: u64)
    ensures
        stream_step(TryRecvOutcome::Received(item)) == StreamPoll::Ready(item),
        stream_step(TryRecvOutcome::<T>::Lagged(lag)) == StreamPoll::<T>::Pending,
        stream_step(TryRecvOutcome::<T>::Empty) == StreamPoll::<T>::Pending,
        stream_step(received) is Ended <==> received is Closed,
{
}

} // verus!
