use pool_seeker::block_sub_chunk::{block_listener_step, BlockSubChunk, ListenerAction, SubscriptionEvent};
use pool_seeker::chain::{
    extract_pools_addresses, pool_address, subscription_targets, ChainJsonInput, DexJsonModel,
    JsonPoolKey, PoolJsonModel,
};
use pool_seeker::pool_event::{generate_pool_events, pool_events, UnifiedPoolEvent};
use pool_seeker::seeker::{log_listener_step, subscription_filter};
use pool_seeker::stream::{poll_step, StreamPoll, TryRecvOutcome};
use pool_seeker::ws_sub_chunk::WsSubChunk;
use pool_seeker::ws_subscription::WsProviderFunnel;

#[test]
fn subscription_filter_hashes_each_event() {
    let f = subscription_filter(&vec!["Transfer(address,address,uint256)", "Sync(uint112,uint112)"], vec![[1u8; 20], [2u8; 20]]);
    assert_eq!(f.addresses, vec![[1u8; 20], [2u8; 20]]);
    assert_eq!(f.event_topics, vec![UnifiedPoolEvent::V2Transfer.topic(), UnifiedPoolEvent::V2Sync.topic()]);
    assert_eq!(f.event_topics[0][0], 0xdd);
    assert_eq!(f.event_topics[0][31], 0xef);
}

#[test]
fn funnel_starts_empty_and_adds_with_every_event() {
    let (funnel, table) = WsProviderFunnel::start();
    assert_eq!(table.get(&UnifiedPoolEvent::V4Donate.topic()), Some(UnifiedPoolEvent::V4Donate));
    let f = funnel.add(vec![[3u8; 20]]);
    assert_eq!(f.addresses, vec![[3u8; 20]]);
    let topics: Vec<[u8; 32]> = pool_events().iter().map(|k| k.topic()).collect();
    assert_eq!(f.event_topics, topics);
    let f = funnel.add(vec![]);
    assert!(f.addresses.is_empty());
    assert_eq!(f.event_topics.len(), generate_pool_events().len());
}

fn addr(b: u8) -> [u8; 20] {
    [b; 20]
}

#[test]
fn subscription_targets_keeps_v2_v3_pools_and_v4_managers() {
    let keys = vec![
        JsonPoolKey::V2(addr(1)),
        JsonPoolKey::V4(addr(2), [0u8; 32]),
        JsonPoolKey::V3(addr(3)),
    ];
    let dexes = vec![
        DexJsonModel::V2 { address: addr(4) },
        DexJsonModel::V4 { address: addr(5), manager: Some("0x000000000004444c5dc75cB358380D2e3dE08A90".to_string()) },
        DexJsonModel::V4 { address: addr(6), manager: None },
        DexJsonModel::V4 { address: addr(7), manager: Some("not an address".to_string()) },
        DexJsonModel::V3 { address: addr(8) },
        DexJsonModel::V4 { address: addr(9), manager: Some("ABABABABABABABABABABABABABABABABABABABAB".to_string()) },
    ];
    let r = subscription_targets(&keys, &dexes);
    let manager: [u8; 20] = [
        0x00, 0x00, 0x00, 0x00, 0x00, 0x04, 0x44, 0x4c, 0x5d, 0xc7, 0x5c, 0xb3, 0x58, 0x38, 0x0d, 0x2e,
        0x3d, 0xe0, 0x8a, 0x90,
    ];
    assert_eq!(r, vec![addr(1), addr(3), manager, [0xab; 20]]);
}

#[test]
fn subscription_targets_rejects_malformed_managers() {
    let bad = ["0x1234", "0xZZ00000000000000000000000000000000000000", "00000000000000000000000000000000000000000", ""];
    for b in bad {
        let dexes = vec![DexJsonModel::V4 { address: addr(0), manager: Some(b.to_string()) }];
        assert!(subscription_targets(&vec![], &dexes).is_empty(), "{b}");
    }
    let dexes = vec![DexJsonModel::V4 { address: addr(0), manager: Some("0X0101010101010101010101010101010101010101".to_string()) }];
    assert_eq!(subscription_targets(&vec![], &dexes), vec![addr(1)]);
}

#[test]
fn extract_pools_addresses_returns_nothing() {
    let chain = ChainJsonInput {
        ws_nodes_urls: vec!["wss://a".to_string(), "wss://b".to_string()],
        dexes: vec![],
        pools: vec![
            PoolJsonModel::V2 { address: addr(1), token0: addr(2), token1: addr(3) },
            PoolJsonModel::V4 { pool_manager: addr(4), state_view: addr(5), token0: addr(6), token1: addr(7), hooks: addr(8) },
        ],
    };
    assert!(extract_pools_addresses(chain).is_empty());
}

#[test]
fn pool_address_picks_state_view_for_v4() {
    assert_eq!(pool_address(&PoolJsonModel::V3 { address: addr(1), token0: addr(2), token1: addr(3) }), addr(1));
    assert_eq!(
        pool_address(&PoolJsonModel::V4 { pool_manager: addr(4), state_view: addr(5), token0: addr(6), token1: addr(7), hooks: addr(8) }),
        addr(5)
    );
}

#[test]
fn poll_step_for_each_outcome() {
    assert_eq!(poll_step(TryRecvOutcome::Received(5u8)), StreamPoll::Ready(5u8));
    assert_eq!(poll_step(TryRecvOutcome::<u8>::Empty), StreamPoll::Pending);
    assert_eq!(poll_step(TryRecvOutcome::<u8>::Lagged(3)), StreamPoll::Pending);
    assert_eq!(poll_step(TryRecvOutcome::<u8>::Closed), StreamPoll::Ended);
    let mut chunk = BlockSubChunk::new();
    assert_eq!(chunk.poll_next(TryRecvOutcome::Received("block")), StreamPoll::Ready("block"));
    assert_eq!(chunk.poll_next(TryRecvOutcome::<u8>::Closed), StreamPoll::Ended);
}

#[test]
fn listener_steps() {
    assert_eq!(block_listener_step(SubscriptionEvent::SubscribeFailed), ListenerAction::Subscribe);
    assert_eq!(block_listener_step(SubscriptionEvent::Received), ListenerAction::Subscribe);
    assert_eq!(block_listener_step(SubscriptionEvent::ReceiveFailed), ListenerAction::Stop);
    assert_eq!(log_listener_step(SubscriptionEvent::SubscribeFailed), ListenerAction::Stop);
    assert_eq!(log_listener_step(SubscriptionEvent::Received), ListenerAction::Receive);
    assert_eq!(log_listener_step(SubscriptionEvent::ReceiveFailed), ListenerAction::Stop);
}

#[test]
fn ws_sub_chunk_records_a_set_of_targets() {
    let mut chunk = WsSubChunk::new(vec![addr(1), addr(2), addr(1)], vec!["Sync(uint112,uint112)"]);
    assert!(chunk.targets.contains(&addr(1)));
    assert!(chunk.targets.contains(&addr(2)));
    assert!(!chunk.targets.contains(&addr(3)));
    assert_eq!(chunk.events, vec!["Sync(uint112,uint112)"]);
    let other = WsSubChunk::new(vec![addr(3)], vec![]);
    chunk.join(other);
    assert!(!chunk.targets.contains(&addr(3)));
    assert_eq!(chunk.events.len(), 1);
}
