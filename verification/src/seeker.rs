//! Which logs the pool listener decodes, what a subscription asks for, and
//! what a listening loop does next.
use crate::bytes::{keccak256, keccak256_digest, Address, Topic};
use crate::block_sub_chunk::{ListenerAction, SubscriptionEvent};
use crate::event_table::EventTable;
use crate::pool_event::{UnifiedPoolEvent, UnifiedPoolEventResponse, tagged};
use vstd::prelude::*;
use vstd::string::StringSliceAdditionalSpecFns;

verus! {

/// The first topic of a log, which names its event.
pub open spec fn first_topic(topics: Seq<Topic>) -> Option<Topic> {
    if topics.len() > 0 {
        Some(topics[0])
    } else {
        None
    }
}

/// The event kind that a log's first topic names in `table`, if any.
pub open spec fn log_event(topics: Seq<Topic>, table: Map<Seq<u8>, UnifiedPoolEvent>) -> Option<
    UnifiedPoolEvent,
> {
    match first_topic(topics) {
        Some(t) => if table.contains_key(t@) {
            Some(table[t@])
        } else {
            None
        },
        None => None,
    }
}

/// The event kinds whose logs `decode_pools_log` decodes: V3 swaps, V4
/// liquidity modifications and V4 swaps.
pub open spec fn decoded_by_pools_log(e: UnifiedPoolEvent) -> bool {
    e == UnifiedPoolEvent::V3Swap || e == UnifiedPoolEvent::V4Modify || e == UnifiedPoolEvent::V4Swap
}

/// The kind `decode_pools_log` decodes a log as, if it decodes it at all.
pub open spec fn pools_log_target(topics: Seq<Topic>, table: Map<Seq<u8>, UnifiedPoolEvent>) -> Option<
    UnifiedPoolEvent,
> {
    match log_event(topics, table) {
        Some(e) => if decoded_by_pools_log(e) {
            Some(e)
        } else {
            None
        },
        None => None,
    }
}

/// A decoder that gives one answer for each event kind.
pub open spec fn deterministic_decoder<T, F: Fn(UnifiedPoolEvent) -> Option<T>>(decode: F) -> bool {
    forall|e: UnifiedPoolEvent, d1: Option<T>, d2: Option<T>|
        #![trigger call_ensures(decode, (e,), d1), call_ensures(decode, (e,), d2)]
        call_ensures(decode, (e,), d1) && call_ensures(decode, (e,), d2) ==> d1 == d2
}

/// `r` is what decoding a log as `target` gives: nothing when there is no
/// target, otherwise what `decode` gives for it, tagged with it.
pub open spec fn decoded_as<T, F: Fn(UnifiedPoolEvent) -> Option<T>>(
    target: Option<UnifiedPoolEvent>,
    decode: F,
    r: Option<UnifiedPoolEventResponse<T>>,
) -> bool {
    match target {
        None => r is None,
        Some(e) => exists|d: Option<T>| #[trigger] call_ensures(decode, (e,), d) && r == tagged(e, d),
    }
}

/// Two tables hold the same entry (or both none) for a log's first topic,
/// or the log has no topics.
pub open spec fn agree_on_first_topic(
    topics: Seq<Topic>,
    m1: Map<Seq<u8>, UnifiedPoolEvent>,
    m2: Map<Seq<u8>, UnifiedPoolEvent>,
) -> bool {
    match first_topic(topics) {
        None => true,
        Some(t) => m1.contains_key(t@) == m2.contains_key(t@) && (m1.contains_key(t@) ==> m1[t@]
            == m2[t@]),
    }
}

/// The first topic of a log (`Log::topic0`).
pub fn topic0(topics: &Vec<Topic>) -> (r: Option<Topic>)
    ensures
        r == first_topic(topics@),
{
    if topics.len() > 0 {
        Some(topics[0])
    } else {
        None
    }
}

/// The event kind that a log's first topic names in `e_map`, if any.
pub fn lookup_log_event(topics: &Vec<Topic>, e_map: &EventTable) -> (r: Option<UnifiedPoolEvent>)
    ensures
        r == log_event(topics@, e_map@),
{
    match topic0(topics) {
        Some(t) => e_map.get(&t),
        None => None,
    }
}

/// Decodes a log of a pool if its first topic names a V3 swap, a V4
/// liquidity modification or a V4 swap in `e_map`: `decode` is called with
/// that kind, and what it decodes comes back tagged with the kind. Logs of
/// any other kind, of no known kind, or without topics give `None`.
pub fn decode_pools_log<T, F: Fn(UnifiedPoolEvent) -> Option<T>>(
    topics: &Vec<Topic>,
    e_map: &EventTable,
    decode: F,
) -> (r: Option<UnifiedPoolEventResponse<T>>)
    requires
        forall|e: UnifiedPoolEvent| call_requires(decode, (e,)),
    ensures
        decoded_as(pools_log_target(topics@, e_map@), decode, r),
{
    match lookup_log_event(topics, e_map) {
        Some(e) => match e {
            UnifiedPoolEvent::V3Swap | UnifiedPoolEvent::V4Modify | UnifiedPoolEvent::V4Swap => {
                let d = decode(e);
                match d {
                    Some(log) => Some(UnifiedPoolEventResponse::new(e, log)),
                    None => None,
                }
            },
            _ => None,
        },
        None => None,
    }
}

/// What a log subscription asks for: logs of any of `addresses` whose first
/// topic is one of `event_topics`.
#[derive(Clone, Debug, PartialEq, Eq)]
pub struct LogFilter {
    pub addresses: Vec<Address>,
    pub event_topics: Vec<Topic>,
}

/// The filter for logs of `addresses` with any of the event `signatures`:
/// each signature stands for its Keccak-256 digest, as alloy's
/// `Filter::events` has it.
pub fn subscription_filter(signatures: &Vec<&str>, addresses: Vec<Address>) -> (f: LogFilter)
    ensures
        f.addresses@ == addresses@,
        f.event_topics@.len() == signatures@.len(),
        forall|i: int|
            0 <= i < signatures@.len() ==> (#[trigger] f.event_topics@[i])@ == keccak256_digest(
                signatures@[i].spec_bytes(),
            ),
{
    let mut event_topics: Vec<Topic> = Vec::new();
    let mut i: usize = 0;
    while i < signatures.len()
        invariant
            i <= signatures@.len(),
            event_topics@.len() == i,
            forall|j: int|
                0 <= j < i ==> (#[trigger] event_topics@[j])@ == keccak256_digest(
                    signatures@[j].spec_bytes(),
                ),
        decreases signatures@.len() - i,
    {
        event_topics.push(keccak256(signatures[i].as_bytes()));
        i = i + 1;
    }
    LogFilter { addresses, event_topics }
}

/// The next step of a log listener (`listen_to_all`): it gives up when the
/// subscription cannot be opened, receives the next log after each log, and
/// stops when receiving fails.
pub fn log_listener_step(event: SubscriptionEvent) -> (a: ListenerAction)
    ensures
        a == (match event {
            SubscriptionEvent::SubscribeFailed => ListenerAction::Stop,
            SubscriptionEvent::Received => ListenerAction::Receive,
            SubscriptionEvent::ReceiveFailed => ListenerAction::Stop,
        }),
{
    match event {
        SubscriptionEvent::SubscribeFailed => ListenerAction::Stop,
        SubscriptionEvent::Received => ListenerAction::Receive,
        SubscriptionEvent::ReceiveFailed => ListenerAction::Stop,
    }
}

} // verus!
