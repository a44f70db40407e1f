use pool_seeker::event_table::{generate_pools_events_map, EventTable};
use pool_seeker::pool_event::{generate_pool_events, pool_events, UnifiedPoolEvent, UnifiedPoolEventResponse};

fn topic_from_hex(s: &str) -> [u8; 32] {
    let mut out = [0u8; 32];
    for i in 0..32 {
        out[i] = u8::from_str_radix(&s[2 * i..2 * i + 2], 16).unwrap();
    }
    out
}

#[test]
fn well_known_topics() {
    assert_eq!(
        UnifiedPoolEvent::V2Transfer.topic(),
        topic_from_hex("ddf252ad1be2c89b69c2b068fc378daa952ba7f163c4a11628f55a4df523b3ef")
    );
    assert_eq!(
        UnifiedPoolEvent::V2Approval.topic(),
        topic_from_hex("8c5be1e5ebec7d5bd14f71427d1e84f3dd0314c0f7b2291e5b200ac8c7c3b925")
    );
    assert_eq!(
        UnifiedPoolEvent::V2Sync.topic(),
        topic_from_hex("1c411e9a96e071241c2f21f7726b17ae89e3cab4c78be50e062b03a9fffbbad1")
    );
    assert_eq!(
        UnifiedPoolEvent::V2Swap.topic(),
        topic_from_hex("d78ad95fa46c994b6551d0da85fc275fe613ce37657fb8d5e3d130840159d822")
    );
    assert_eq!(
        UnifiedPoolEvent::V3Swap.topic(),
        topic_from_hex("c42079f94a6350d7e6235f29174924f928cc2ac818eb64fed8004e115fbcca67")
    );
}

#[test]
fn remaining_known_topics() {
    assert_eq!(
        UnifiedPoolEvent::V2Mint.topic(),
        topic_from_hex("4c209b5fc8ad50758f13e2e1088ba56a560dff690a1c6fef26394f4c03821c4f")
    );
    assert_eq!(
        UnifiedPoolEvent::V2Burn.topic(),
        topic_from_hex("dccd412f0b1252819cb1fd330b93224ca42612892bb3f4f789976e6d81936496")
    );
    assert_eq!(
        UnifiedPoolEvent::V3Mint.topic(),
        topic_from_hex("7a53080ba414158be7ec69b987b5fb7d07dee101fe85488f0853ae16239d0bde")
    );
    assert_eq!(
        UnifiedPoolEvent::V3Collect.topic(),
        topic_from_hex("70935338e69775456a85ddef226c395fb668b63fa0115f5f20610b388e6ca9c0")
    );
    assert_eq!(
        UnifiedPoolEvent::V3Burn.topic(),
        topic_from_hex("0c396cd989a39f4459b5fa1aed6a9a8dcdbc45908acfd67e028cd568da98982c")
    );
    assert_eq!(
        UnifiedPoolEvent::V3Flash.topic(),
        topic_from_hex("bdbdb71d7860376ba52b25a5028beea23581364a40522f6bcfb86bb1f2dca633")
    );
    assert_eq!(
        UnifiedPoolEvent::V4Donate.topic(),
        topic_from_hex("29ef05caaff9404b7cb6d1c0e9bbae9eaa7ab2541feba1a9c4248594c08156cb")
    );
    assert_eq!(
        UnifiedPoolEvent::V4Initialize.topic(),
        topic_from_hex("dd466e674ea557f56295e2d0218a125ea4b4f0f6f3307b95f85e6110838d6438")
    );
    assert_eq!(
        UnifiedPoolEvent::V4Modify.topic(),
        topic_from_hex("f208f4912782fd25c7f114ca3723a2d5dd6f3bcc3ac8db5af63baa85f711d5ec")
    );
    assert_eq!(
        UnifiedPoolEvent::V4Swap.topic(),
        topic_from_hex("40e9cecb9f5f1f1c5b9c97dec2917b7ee92e57ba5563708daca94dd84ad7112f")
    );
}

#[test]
fn signatures_of_each_protocol() {
    assert_eq!(UnifiedPoolEvent::V2Mint.signature(), "Mint(address,uint256,uint256)");
    assert_eq!(
        UnifiedPoolEvent::V3Swap.signature(),
        "Swap(address,address,int256,int256,uint160,uint128,int24)"
    );
    assert_eq!(
        UnifiedPoolEvent::V4Modify.signature(),
        "ModifyLiquidity(bytes32,address,int24,int24,int256,bytes32)"
    );
    assert_eq!(
        UnifiedPoolEvent::V4Swap.signature(),
        "Swap(bytes32,address,int128,int128,uint160,uint128,int24,uint24)"
    );
}

#[test]
fn generate_pool_events_lists_every_signature_in_order() {
    let events = generate_pool_events();
    let kinds = pool_events();
    assert_eq!(events.len(), 15);
    assert_eq!(kinds.len(), 15);
    for (s, k) in events.iter().zip(kinds.iter()) {
        assert_eq!(*s, k.signature());
    }
    assert_eq!(kinds[0], UnifiedPoolEvent::V2Mint);
    assert_eq!(kinds[14], UnifiedPoolEvent::V4Swap);
}

#[test]
fn known_topics_are_distinct() {
    let kinds = pool_events();
    for i in 0..kinds.len() {
        for j in (i + 1)..kinds.len() {
            assert_ne!(kinds[i].topic(), kinds[j].topic());
        }
    }
}

#[test]
fn default_table_resolves_every_known_topic() {
    let table = generate_pools_events_map();
    for k in pool_events() {
        assert_eq!(table.get(&k.topic()), Some(k));
    }
    assert_eq!(table.get(&[0u8; 32]), None);
}

#[test]
fn table_insert_then_get() {
    let mut table = EventTable::new();
    let t1 = [1u8; 32];
    let t2 = [2u8; 32];
    assert_eq!(table.get(&t1), None);
    table.insert(t1, UnifiedPoolEvent::V3Mint);
    table.insert(t2, UnifiedPoolEvent::V4Donate);
    assert_eq!(table.get(&t1), Some(UnifiedPoolEvent::V3Mint));
    assert_eq!(table.get(&t2), Some(UnifiedPoolEvent::V4Donate));
    table.insert(t1, UnifiedPoolEvent::V3Burn);
    assert_eq!(table.get(&t1), Some(UnifiedPoolEvent::V3Burn));
    assert_eq!(table.get(&t2), Some(UnifiedPoolEvent::V4Donate));
    assert_eq!(table.get(&[3u8; 32]), None);
}

#[test]
fn response_is_tagged_with_its_event() {
    let r = UnifiedPoolEventResponse::new(UnifiedPoolEvent::V4Initialize, 7u32);
    assert_eq!(r, UnifiedPoolEventResponse::V4Initialize(7u32));
    let r = UnifiedPoolEventResponse::new(UnifiedPoolEvent::V2Burn, "log");
    assert_eq!(r, UnifiedPoolEventResponse::V2Burn("log"));
}
