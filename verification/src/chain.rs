//! The pools and exchanges of a chain's configuration, and the addresses a
//! listener subscribes to for them.
use crate::bytes::{hex_address, parse_address, Address, Topic};
use vstd::prelude::*;
use vstd::string::StringSliceAdditionalSpecFns;
use vstd::utf8::encode_utf8;

verus! {

/// The key under which a chain configuration lists a pool.
#[derive(Clone, Debug, PartialEq, Eq)]
pub enum JsonPoolKey {
    /// A V2 pair, by its address.
    V2(Address),
    /// A V3 pool, by its address.
    V3(Address),
    /// A V4 pool, by its pool manager's address and its pool id.
    V4(Address, Topic),
}

/// An exchange of a chain configuration; only a V4 exchange's pool manager
/// matters to the listener.
#[derive(Clone, Debug, PartialEq, Eq)]
pub enum DexJsonModel {
    V2 { address: Address },
    V3 { address: Address },
    V4 { address: Address, manager: Option<String> },
}

/// A pool of a chain configuration.
#[derive(Clone, Debug, PartialEq, Eq)]
pub enum PoolJsonModel {
    V2 { address: Address, token0: Address, token1: Address },
    V3 { address: Address, token0: Address, token1: Address },
    V4 {
        pool_manager: Address,
        state_view: Address,
        token0: Address,
        token1: Address,
        hooks: Address,
    },
}

/// A chain's configuration: its websocket nodes, exchanges and pools.
#[derive(Clone, Debug, PartialEq, Eq)]
pub struct ChainJsonInput {
    pub ws_nodes_urls: Vec<String>,
    pub dexes: Vec<DexJsonModel>,
    pub pools: Vec<PoolJsonModel>,
}

/// The address subscribed to for a pool key: that of a V2 or V3 pool; none
/// for a V4 pool.
pub open spec fn pool_key_target(k: JsonPoolKey) -> Option<Seq<u8>> {
    match k {
        JsonPoolKey::V2(a) => Some(a@),
        JsonPoolKey::V3(a) => Some(a@),
        JsonPoolKey::V4(_, _) => None,
    }
}

/// The address subscribed to for an exchange: the pool manager of a V4
/// exchange, when it names one that is a valid hex address.
pub open spec fn dex_target(d: DexJsonModel) -> Option<Seq<u8>> {
    match d {
        DexJsonModel::V4 { manager: Some(m), .. } => hex_address(encode_utf8(m@)),
        _ => None,
    }
}

/// The addresses subscribed to for a list of pool keys, in order.
pub open spec fn pool_targets(keys: Seq<JsonPoolKey>) -> Seq<Seq<u8>>
    decreases keys.len(),
{
    if keys.len() == 0 {
        seq![]
    } else {
        match pool_key_target(keys.last()) {
            Some(a) => pool_targets(keys.drop_last()).push(a),
            None => pool_targets(keys.drop_last()),
        }
    }
}

/// The addresses subscribed to for a list of exchanges, in order.
pub open spec fn dex_targets(dexes: Seq<DexJsonModel>) -> Seq<Seq<u8>>
    decreases dexes.len(),
{
    if dexes.len() == 0 {
        seq![]
    } else {
        match dex_target(dexes.last()) {
            Some(a) => dex_targets(dexes.drop_last()).push(a),
            None => dex_targets(dexes.drop_last()),
        }
    }
}

/// The addresses subscribed to for a list of pool keys are those of its V2
/// and V3 keys, each one, in the order given; V4 keys give none.
pub proof fn pool_targets_are_the_v2_v3_addresses(keys: Seq<JsonPoolKey>)
    ensures
        pool_targets(keys) == keys.filter_map(
            |k: JsonPoolKey|
                match k {
                    JsonPoolKey::V2(a) => Some(a@),
                    JsonPoolKey::V3(a) => Some(a@),
                    JsonPoolKey::V4(_, _) => None,
                },
        ),
    decreases keys.len(),
{
    if keys.len() > 0 {
        pool_targets_are_the_v2_v3_addresses(keys.drop_last());
        assert(pool_targets(keys) =~= keys.filter_map(
            |k: JsonPoolKey|
                match k {
                    JsonPoolKey::V2(a) => Some(a@),
                    JsonPoolKey::V3(a) => Some(a@),
                    JsonPoolKey::V4(_, _) => None,
                },
        ));
    }
}

/// Whatever its position, the address of every V2 or V3 key is subscribed to.
pub proof fn every_v2_v3_pool_is_targeted(keys: Seq<JsonPoolKey>, i: int)
    requires
        0 <= i < keys.len(),
    ensures
        keys[i] matches JsonPoolKey::V2(a) ==> pool_targets(keys).contains(a@),
        keys[i] matches JsonPoolKey::V3(a) ==> pool_targets(keys).contains(a@),
    decreases keys.len(),
{
    let prefix = keys.drop_last();
    if i < keys.len() - 1 {
        every_v2_v3_pool_is_targeted(prefix, i);
        assert(prefix[i] == keys[i]);
        if let Some(a) = pool_key_target(keys.last()) {
            let before = pool_targets(prefix);
            assert forall|x: Seq<u8>| before.contains(x) implies before.push(a).contains(x) by {
                let j = choose|j: int| 0 <= j < before.len() && before[j] == x;
                assert(before.push(a)[j] == x);
            }
        }
    } else {
        let n = pool_targets(prefix).len() as int;
        if let Some(a) = pool_key_target(keys.last()) {
            assert(pool_targets(keys)[n] == a);
        }
    }
}

/// The addresses subscribed to for a list of exchanges are the valid pool
/// managers of its V4 exchanges, in the order given.
pub proof fn dex_targets_are_the_v4_managers(dexes: Seq<DexJsonModel>)
    ensures
        dex_targets(dexes) == dexes.filter_map(
            |d: DexJsonModel|
                match d {
                    DexJsonModel::V4 { manager: Some(m), .. } => hex_address(encode_utf8(m@)),
                    _ => None,
                },
        ),
    decreases dexes.len(),
{
    if dexes.len() > 0 {
        dex_targets_are_the_v4_managers(dexes.drop_last());
        assert(dex_targets(dexes) =~= dexes.filter_map(
            |d: DexJsonModel|
                match d {
                    DexJsonModel::V4 { manager: Some(m), .. } => hex_address(encode_utf8(m@)),
                    _ => None,
                },
        ));
    }
}

/// The addresses a listener subscribes to for a chain: the V2 and V3 pools
/// in the order given, then the pool managers of the V4 exchanges whose
/// manager parses as an address.
pub fn subscription_targets(pools: &Vec<JsonPoolKey>, dexes: &Vec<DexJsonModel>) -> (r: Vec<Address>)
    ensures
        r@.map_values(|a: Address| a@) == pool_targets(pools@) + dex_targets(dexes@),
        r@.map_values(|a: Address| a@) == pools@.filter_map(
            |k: JsonPoolKey|
                match k {
                    JsonPoolKey::V2(a) => Some(a@),
                    JsonPoolKey::V3(a) => Some(a@),
                    JsonPoolKey::V4(_, _) => None,
                },
        ) + dexes@.filter_map(
            |d: DexJsonModel|
                match d {
                    DexJsonModel::V4 { manager: Some(m), .. } => hex_address(encode_utf8(m@)),
                    _ => None,
                },
        ),
        forall|i: int|
            0 <= i < pools@.len() ==> (#[trigger] pools@[i] matches JsonPoolKey::V2(a)
                ==> r@.map_values(|a: Address| a@).contains(a@)),
        forall|i: int|
            0 <= i < pools@.len() ==> (#[trigger] pools@[i] matches JsonPoolKey::V3(a)
                ==> r@.map_values(|a: Address| a@).contains(a@)),
{
    let mut r: Vec<Address> = Vec::new();
    let mut i: usize = 0;
    while i < pools.len()
        invariant
            i <= pools@.len(),
            r@.map_values(|a: Address| a@) == pool_targets(pools@.take(i as int)),
        decreases pools@.len() - i,
    {
        match &pools[i] {
            JsonPoolKey::V2(a) => r.push(*a),
            JsonPoolKey::V3(a) => r.push(*a),
            JsonPoolKey::V4(_, _) => {},
        }
        proof {
            assert(pools@.take(i + 1).drop_last() =~= pools@.take(i as int));
            assert(r@.map_values(|a: Address| a@) =~= pool_targets(pools@.take(i + 1)));
        }
        i = i + 1;
    }
    assert(pools@.take(pools@.len() as int) =~= pools@);
    let ghost from_pools = r@.map_values(|a: Address| a@);
    let mut j: usize = 0;
    while j < dexes.len()
        invariant
            j <= dexes@.len(),
            from_pools == pool_targets(pools@),
            r@.map_values(|a: Address| a@) == from_pools + dex_targets(dexes@.take(j as int)),
        decreases dexes@.len() - j,
    {
        let ghost before = r@;
        let ghost prefix = dexes@.take(j as int);
        let ghost next = dexes@.take(j + 1);
        assert(next.drop_last() =~= prefix);
        assert(next.last() == dexes@[j as int]);
        match &dexes[j] {
            DexJsonModel::V4 { manager: Some(m), .. } => {
                let text: &str = m.as_str();
                match parse_address(text) {
                    Some(a) => {
                        r.push(a);
                        assert(dex_target(dexes@[j as int]) == Some(a@));
                        assert(dex_targets(next) == dex_targets(prefix).push(a@));
                        assert(r@.map_values(|a: Address| a@) =~= before.map_values(
                            |a: Address| a@,
                        ).push(a@));
                    },
                    None => {
                        assert(dex_targets(next) == dex_targets(prefix));
                    },
                }
            },
            _ => {
                assert(dex_targets(next) == dex_targets(prefix));
            },
        }
        proof {
            assert(r@.map_values(|a: Address| a@) =~= from_pools + dex_targets(next));
        }
        j = j + 1;
    }
    assert(dexes@.take(dexes@.len() as int) =~= dexes@);
    proof {
        pool_targets_are_the_v2_v3_addresses(pools@);
        dex_targets_are_the_v4_managers(dexes@);
        let all = r@.map_values(|a: Address| a@);
        let head = pool_targets(pools@);
        assert forall|i: int| 0 <= i < pools@.len() implies (#[trigger] pools@[i] matches JsonPoolKey::V2(a)
            ==> all.contains(a@)) && (pools@[i] matches JsonPoolKey::V3(a) ==> all.contains(a@)) by {
            every_v2_v3_pool_is_targeted(pools@, i);
            if let Some(x) = pool_key_target(pools@[i]) {
                let j = choose|j: int| 0 <= j < head.len() && head[j] == x;
                assert(all[j] == (head + dex_targets(dexes@))[j]);
            }
        }
    }
    r
}

/// The address a configured pool is watched at: a V2 or V3 pool's own
/// address, a V4 pool's state view.
pub open spec fn pool_address_spec(p: PoolJsonModel) -> Address {
    match p {
        PoolJsonModel::V2 { address, .. } => address,
        PoolJsonModel::V3 { address, .. } => address,
        PoolJsonModel::V4 { state_view, .. } => state_view,
    }
}

/// The address a configured pool is watched at.
pub fn pool_address(p: &PoolJsonModel) -> (a: Address)
    ensures
        a == pool_address_spec(*p),
{
    match p {
        PoolJsonModel::V2 { address, .. } => *address,
        PoolJsonModel::V3 { address, .. } => *address,
        PoolJsonModel::V4 { state_view, .. } => *state_view,
    }
}

/// Walks the pools of a chain once per websocket node and gathers them per
/// node, but returns none of them: the list it returns is always empty.
pub fn extract_pools_addresses(chain: ChainJsonInput) -> (r: Vec<Address>)
    ensures
        r@ == Seq::<Address>::empty(),
{
    let pools: Vec<Address> = Vec::new();
    let mut n: usize = 0;
    while n < chain.ws_nodes_urls.len()
        invariant
            pools@ == Seq::<Address>::empty(),
        decreases chain.ws_nodes_urls@.len() - n,
    {
        let mut pools_addresses: Vec<&PoolJsonModel> = Vec::new();
        let mut i: usize = 0;
        while i < chain.pools.len()
            decreases chain.pools@.len() - i,
        {
            let p = &chain.pools[i];
            let _addr = pool_address(p);
            pools_addresses.push(p);
            i = i + 1;
        }
        n = n + 1;
    }
    pools
}

} // verus!
