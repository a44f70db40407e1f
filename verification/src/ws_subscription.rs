//! The funnel that merges log subscriptions into one stream of decoded pool
//! events: which logs it forwards, and what each added subscription asks for.
use crate::address_set::AddressSet;
use crate::bytes::{Address, Topic};
use crate::event_table::{
    default_table_holds_known_topics, default_table_resolves, generate_pools_events_map, kind_topics,
    topic_map, topics_distinct, EventTable,
};
use crate::pool_event::{
    all_pool_events, event_signature, event_topic, generate_pool_events, tagged, UnifiedPoolEvent,
    UnifiedPoolEventResponse,
};
use crate::seeker::{
    agree_on_first_topic, decoded_as, decoded_by_pools_log, deterministic_decoder, log_event, lookup_log_event, pools_log_target, subscription_filter,
    LogFilter,
};
use vstd::prelude::*;

verus! {

/// The event kinds whose logs the funnel forwards: all but V2 `Sync` and
/// V2 `Approval`.
pub open spec fn forwarded_by_funnel(e: UnifiedPoolEvent) -> bool {
    e != UnifiedPoolEvent::V2Sync && e != UnifiedPoolEvent::V2Approval
}

/// The kind the funnel decodes a log as, if it forwards it at all.
pub open spec fn funnel_log_target(topics: Seq<Topic>, table: Map<Seq<u8>, UnifiedPoolEvent>) -> Option<
    UnifiedPoolEvent,
> {
    match log_event(topics, table) {
        Some(e) => if forwarded_by_funnel(e) {
            Some(e)
        } else {
            None
        },
        None => None,
    }
}

/// Decodes one log that reached the funnel: if its first topic names a
/// forwarded kind in `e_map`, `decode` is called with that kind and what it
/// decodes comes back tagged with the kind; otherwise `None`.
pub fn funnel_log<T, F: Fn(UnifiedPoolEvent) -> Option<T>>(
    topics: &Vec<Topic>,
    e_map: &EventTable,
    decode: F,
) -> (r: Option<UnifiedPoolEventResponse<T>>)
    requires
        forall|e: UnifiedPoolEvent| call_requires(decode, (e,)),
    ensures
        decoded_as(funnel_log_target(topics@, e_map@), decode, r),
{
    match lookup_log_event(topics, e_map) {
        Some(e) => match e {
            UnifiedPoolEvent::V2Sync | UnifiedPoolEvent::V2Approval => None,
            _ => {
                let d = decode(e);
                match d {
                    Some(log) => Some(UnifiedPoolEventResponse::new(e, log)),
                    None => None,
                }
            },
        },
        None => None,
    }
}

/// The state of a funnel: the addresses it targets and the event
/// signatures it subscribes to.
#[derive(Debug)]
pub struct WsProviderFunnel {
    targets: AddressSet,
    events: Vec<&'static str>,
}

impl WsProviderFunnel {
    /// The addresses the funnel targets.
    pub closed spec fn targets(self) -> Set<Seq<u8>> {
        self.targets@
    }

    /// The event signatures the funnel subscribes to.
    pub closed spec fn events(self) -> Seq<Seq<char>> {
        self.events@.map_values(|s: &'static str| s@)
    }

    /// A new funnel, with no targets and every known event, and the topic
    /// table its listener decodes with.
    pub fn start() -> (r: (WsProviderFunnel, EventTable))
        ensures
            r.0.targets() == Set::<Seq<u8>>::empty(),
            r.0.events() == all_pool_events().map_values(|e: UnifiedPoolEvent| event_signature(e)),
            r.1@ == topic_map(all_pool_events()),
    {
        let e_map = generate_pools_events_map();
        let events = generate_pool_events();
        let funnel = WsProviderFunnel { targets: AddressSet::new(), events };
        (funnel, e_map)
    }

    /// The filter of the subscription that adding `adresses` opens: those
    /// addresses, and the topics of every known event.
    pub fn add(&self, adresses: Vec<Address>) -> (f: LogFilter)
        ensures
            f.addresses@ == adresses@,
            f.event_topics@.map_values(|t: Topic| t@) == kind_topics(all_pool_events()),
    {
        let events = generate_pool_events();
        let f = subscription_filter(&events, adresses);
        proof {
            assert(f.event_topics@.map_values(|t: Topic| t@) =~= kind_topics(all_pool_events()));
        }
        f
    }
}

/// Every log that `decode_pools_log` decodes, the funnel forwards too, as
/// the same kind.
pub proof fn pools_decoding_is_forwarded(topics: Seq<Topic>, table: Map<Seq<u8>, UnifiedPoolEvent>)
    ensures
        pools_log_target(topics, table) is Some ==> funnel_log_target(topics, table)
            == pools_log_target(topics, table),
{
}

/// A log without topics is neither decoded nor forwarded.
pub proof fn logs_without_topics_are_dropped(table: Map<Seq<u8>, UnifiedPoolEvent>)
    ensures
        pools_log_target(Seq::<Topic>::empty(), table) is None,
        funnel_log_target(Seq::<Topic>::empty(), table) is None,
{
}

/// With the default table, a log whose first topic is the topic of a known
/// event kind is taken as that kind: `decode_pools_log` decodes it exactly
/// when it is a V3 swap, a V4 liquidity modification or a V4 swap, and the
/// funnel forwards it exactly when it is neither a V2 `Sync` nor a V2
/// `Approval` (as long as no two known signatures hash alike).
pub proof fn known_events_are_routed_by_kind(e: UnifiedPoolEvent, topics: Seq<Topic>)
    requires
        topics_distinct(all_pool_events()),
        topics.len() > 0,
        topics[0]@ == event_topic(e),
    ensures
        log_event(topics, topic_map(all_pool_events())) == Some(e),
        pools_log_target(topics, topic_map(all_pool_events())) == (if decoded_by_pools_log(e) {
            Some(e)
        } else {
            None
        }),
        funnel_log_target(topics, topic_map(all_pool_events())) == (if forwarded_by_funnel(e) {
            Some(e)
        } else {
            None
        }),
{
    default_table_resolves(e);
}

/// The topics a funnel subscription asks for are exactly the topics its
/// listener's table resolves.
pub proof fn funnel_subscribes_to_resolvable_topics()
    ensures
        kind_topics(all_pool_events()).to_set() == topic_map(all_pool_events()).dom(),
{
    default_table_holds_known_topics();
}

/// With a decoder that gives one answer per kind, what `decode_pools_log`
/// gives for a log depends on its table only through the entry for the
/// log's first topic.
pub proof fn pools_log_depends_on_first_entry_only<T, F: Fn(UnifiedPoolEvent) -> Option<T>>(
    topics: Seq<Topic>,
    m1: Map<Seq<u8>, UnifiedPoolEvent>,
    m2: Map<Seq<u8>, UnifiedPoolEvent>,
    decode: F,
    r1: Option<UnifiedPoolEventResponse<T>>,
    r2: Option<UnifiedPoolEventResponse<T>>,
)
    requires
        deterministic_decoder(decode),
        agree_on_first_topic(topics, m1, m2),
        decoded_as(pools_log_target(topics, m1), decode, r1),
        decoded_as(pools_log_target(topics, m2), decode, r2),
    ensures
        r1 == r2,
{
    assert(pools_log_target(topics, m1) == pools_log_target(topics, m2));
    lemma_decoded_as_unique(pools_log_target(topics, m1), decode, r1, r2);
}

/// With a decoder that gives one answer per kind, what the funnel gives for
/// a log depends on its table only through the entry for the log's first
/// topic.
pub proof fn funnel_log_depends_on_first_entry_only<T, F: Fn(UnifiedPoolEvent) -> Option<T>>(
    topics: Seq<Topic>,
    m1: Map<Seq<u8>, UnifiedPoolEvent>,
    m2: Map<Seq<u8>, UnifiedPoolEvent>,
    decode: F,
    r1: Option<UnifiedPoolEventResponse<T>>,
    r2: Option<UnifiedPoolEventResponse<T>>,
)
    requires
        deterministic_decoder(decode),
        agree_on_first_topic(topics, m1, m2),
        decoded_as(funnel_log_target(topics, m1), decode, r1),
        decoded_as(funnel_log_target(topics, m2), decode, r2),
    ensures
        r1 == r2,
{
    assert(funnel_log_target(topics, m1) == funnel_log_target(topics, m2));
    lemma_decoded_as_unique(funnel_log_target(topics, m1), decode, r1, r2);
}

/// With a decoder that gives one answer per kind, a log that
/// `decode_pools_log` decodes (a V3 swap, a V4 liquidity modification or a
/// V4 swap) comes out of the funnel as the same response, when the two
/// tables agree on its first topic (as the funnel's table from `start` and
/// `generate_pools_events_map` do on every topic).
pub proof fn funnel_gives_what_pools_log_decodes<T, F: Fn(UnifiedPoolEvent) -> Option<T>>(
    topics: Seq<Topic>,
    pools_table: Map<Seq<u8>, UnifiedPoolEvent>,
    funnel_table: Map<Seq<u8>, UnifiedPoolEvent>,
    decode: F,
    from_pools: Option<UnifiedPoolEventResponse<T>>,
    from_funnel: Option<UnifiedPoolEventResponse<T>>,
)
    requires
        deterministic_decoder(decode),
        agree_on_first_topic(topics, pools_table, funnel_table),
        pools_log_target(topics, pools_table) is Some,
        decoded_as(pools_log_target(topics, pools_table), decode, from_pools),
        decoded_as(funnel_log_target(topics, funnel_table), decode, from_funnel),
    ensures
        from_pools == from_funnel,
{
    assert(funnel_log_target(topics, funnel_table) == pools_log_target(topics, pools_table));
    lemma_decoded_as_unique(pools_log_target(topics, pools_table), decode, from_pools, from_funnel);
}

/// With a deterministic decoder, decoding as one target has one outcome.
proof fn lemma_decoded_as_unique<T, F: Fn(UnifiedPoolEvent) -> Option<T>>(
    target: Option<UnifiedPoolEvent>,
    decode: F,
    r1: Option<UnifiedPoolEventResponse<T>>,
    r2: Option<UnifiedPoolEventResponse<T>>,
)
    requires
        deterministic_decoder(decode),
        decoded_as(target, decode, r1),
        decoded_as(target, decode, r2),
    ensures
        r1 == r2,
{
    if let Some(e) = target {
        let d1 = choose|d: Option<T>| #[trigger] call_ensures(decode, (e,), d) && r1 == tagged(e, d);
        let d2 = choose|d: Option<T>| #[trigger] call_ensures(decode, (e,), d) && r2 == tagged(e, d);
        assert(d1 == d2);
    }
}

} // verus!
