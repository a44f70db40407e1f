//! The block subscription: its stream and the loop that keeps it alive.
use crate::stream::{poll_step, stream_step, StreamPoll, TryRecvOutcome};
use vstd::prelude::*;

verus! {

/// A stream of new blocks.
#[derive(Clone, Copy, Debug, PartialEq, Eq)]
pub struct BlockSubChunk {}

impl BlockSubChunk {
    /// A block stream.
    pub fn new() -> (c: Self)
        ensures
            c == (BlockSubChunk {  }),
    {
        BlockSubChunk {  }
    }

    /// Answers a poll from what the block channel gave.
    pub fn poll_next<T>(&mut self, received: TryRecvOutcome<T>) -> (p: StreamPoll<T>)
        ensures
            p == stream_step(received),
            received matches TryRecvOutcome::Received(item) ==> p == StreamPoll::Ready(item),
            received is Empty ==> p is Pending,
            received is Lagged ==> p is Pending,
            p is Ended <==> received is Closed,
            *final(self) == *old(self),
    {
        poll_step(received)
    }
}

/// What happened in one round of a subscription loop.
#[derive(Clone, Copy, Debug, PartialEq, Eq, Structural)]
pub enum SubscriptionEvent {
    /// Opening the subscription failed.
    SubscribeFailed,
    /// An item was received.
    Received,
    /// Receiving failed.
    ReceiveFailed,
}

/// What a subscription loop does next.
#[derive(Clone, Copy, Debug, PartialEq, Eq, Structural)]
pub enum ListenerAction {
    /// Open a new subscription.
    Subscribe,
    /// Receive the next item of the current subscription.
    Receive,
    /// Leave the loop.
    Stop,
}

/// The next step of the block listener (`sub`): it subscribes again after a
/// failed subscription and after each block it receives, and stops only
/// when receiving fails.
pub fn block_listener_step(event: SubscriptionEvent) -> (a: ListenerAction)
    ensures
        a == (match event {
            SubscriptionEvent::SubscribeFailed => ListenerAction::Subscribe,
            SubscriptionEvent::Received => ListenerAction::Subscribe,
            SubscriptionEvent::ReceiveFailed => ListenerAction::Stop,
        }),
{
    match event {
        SubscriptionEvent::SubscribeFailed => ListenerAction::Subscribe,
        SubscriptionEvent::Received => ListenerAction::Subscribe,
        SubscriptionEvent::ReceiveFailed => ListenerAction::Stop,
    }
}

} // verus!
