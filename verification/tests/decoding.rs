use std::cell::Cell;

use pool_seeker::event_table::generate_pools_events_map;
use pool_seeker::pool_event::{pool_events, UnifiedPoolEvent, UnifiedPoolEventResponse};
use pool_seeker::seeker::{decode_pools_log, lookup_log_event, topic0};
use pool_seeker::ws_subscription::funnel_log;

fn log_of(kind: UnifiedPoolEvent) -> Vec<[u8; 32]> {
    vec![kind.topic(), [9u8; 32], [8u8; 32]]
}

#[test]
fn topic0_is_the_first_topic() {
    assert_eq!(topic0(&vec![]), None);
    assert_eq!(topic0(&vec![[5u8; 32], [6u8; 32]]), Some([5u8; 32]));
}

#[test]
fn lookup_names_the_kind_of_the_first_topic() {
    let table = generate_pools_events_map();
    assert_eq!(lookup_log_event(&log_of(UnifiedPoolEvent::V3Flash), &table), Some(UnifiedPoolEvent::V3Flash));
    // an event topic in second place does not count
    let topics = vec![[0u8; 32], UnifiedPoolEvent::V3Flash.topic()];
    assert_eq!(lookup_log_event(&topics, &table), None);
    assert_eq!(lookup_log_event(&vec![], &table), None);
}

#[test]
fn pools_log_decodes_only_v3_swap_v4_modify_v4_swap() {
    let table = generate_pools_events_map();
    for k in pool_events() {
        let calls = Cell::new(0u32);
        let r = decode_pools_log(&log_of(k), &table, |e| {
            calls.set(calls.get() + 1);
            assert_eq!(e, k);
            Some(100u32)
        });
        match k {
            UnifiedPoolEvent::V3Swap => {
                assert_eq!(r, Some(UnifiedPoolEventResponse::V3Swap(100)));
                assert_eq!(calls.get(), 1);
            }
            UnifiedPoolEvent::V4Modify => {
                assert_eq!(r, Some(UnifiedPoolEventResponse::V4Modify(100)));
                assert_eq!(calls.get(), 1);
            }
            UnifiedPoolEvent::V4Swap => {
                assert_eq!(r, Some(UnifiedPoolEventResponse::V4Swap(100)));
                assert_eq!(calls.get(), 1);
            }
            _ => {
                assert_eq!(r, None);
                assert_eq!(calls.get(), 0);
            }
        }
    }
}

#[test]
fn pools_log_failed_decode_gives_none() {
    let table = generate_pools_events_map();
    let r = decode_pools_log(&log_of(UnifiedPoolEvent::V3Swap), &table, |_| None::<u32>);
    assert_eq!(r, None);
}

#[test]
fn pools_log_unknown_or_missing_topic_gives_none() {
    let table = generate_pools_events_map();
    let r = decode_pools_log(&vec![[7u8; 32]], &table, |_| Some(1u8));
    assert_eq!(r, None);
    let r = decode_pools_log(&vec![], &table, |_| Some(1u8));
    assert_eq!(r, None);
}

#[test]
fn funnel_forwards_all_but_sync_and_approval() {
    let table = generate_pools_events_map();
    for k in pool_events() {
        let r = funnel_log(&log_of(k), &table, |e| Some(e));
        match k {
            UnifiedPoolEvent::V2Sync | UnifiedPoolEvent::V2Approval => assert_eq!(r, None),
            _ => assert_eq!(r, Some(UnifiedPoolEventResponse::new(k, k))),
        }
    }
    let r = funnel_log(&log_of(UnifiedPoolEvent::V2Transfer), &table, |_| None::<u8>);
    assert_eq!(r, None);
    let r = funnel_log(&vec![], &table, |_| Some(0u8));
    assert_eq!(r, None);
}

#[test]
fn result_depends_only_on_first_topic_entry() {
    let full = generate_pools_events_map();
    let mut only_swap = pool_seeker::event_table::EventTable::new();
    only_swap.insert(UnifiedPoolEvent::V3Swap.topic(), UnifiedPoolEvent::V3Swap);
    only_swap.insert([4u8; 32], UnifiedPoolEvent::V4Swap);
    let topics = log_of(UnifiedPoolEvent::V3Swap);
    let a = decode_pools_log(&topics, &full, |e| Some(e));
    let b = decode_pools_log(&topics, &only_swap, |e| Some(e));
    assert_eq!(a, b);
    assert_eq!(a, Some(UnifiedPoolEventResponse::V3Swap(UnifiedPoolEvent::V3Swap)));
    let f1 = funnel_log(&topics, &full, |e| Some(e));
    let f2 = funnel_log(&topics, &only_swap, |e| Some(e));
    assert_eq!(f1, f2);
}

#[test]
fn funnel_gives_what_pools_log_decodes() {
    let table = generate_pools_events_map();
    for k in [UnifiedPoolEvent::V3Swap, UnifiedPoolEvent::V4Modify, UnifiedPoolEvent::V4Swap] {
        let topics = log_of(k);
        let decode = |e: UnifiedPoolEvent| if e == UnifiedPoolEvent::V4Modify { None } else { Some(e) };
        assert_eq!(decode_pools_log(&topics, &table, decode), funnel_log(&topics, &table, decode));
    }
}
