//! The pool events the listener knows (Uniswap V2 pair, V3 pool and V4
//! pool-manager events), their Solidity signatures and topics, and the
//! response that carries a decoded log of one of them.
use crate::bytes::{keccak256, keccak256_digest, Topic};
use vstd::prelude::*;
use vstd::string::StringSliceAdditionalSpecFns;
use vstd::utf8::encode_utf8;

verus! {

/// One kind of pool event.
#[derive(Clone, Copy, Debug, PartialEq, Eq, Structural)]
pub enum UnifiedPoolEvent {
    V2Mint,
    V2Burn,
    V2Swap,
    V2Sync,
    V2Approval,
    V2Transfer,
    V3Mint,
    V3Swap,
    V3Collect,
    V3Burn,
    V3Flash,
    V4Donate,
    V4Initialize,
    V4Modify,
    V4Swap,
}

/// The canonical Solidity signature of an event kind.
pub open spec fn event_signature(e: UnifiedPoolEvent) -> Seq<char> {
    match e {
        UnifiedPoolEvent::V2Mint => "Mint(address,uint256,uint256)"@,
        UnifiedPoolEvent::V2Burn => "Burn(address,uint256,uint256,address)"@,
        UnifiedPoolEvent::V2Swap => "Swap(address,uint256,uint256,uint256,uint256,address)"@,
        UnifiedPoolEvent::V2Sync => "Sync(uint112,uint112)"@,
        UnifiedPoolEvent::V2Approval => "Approval(address,address,uint256)"@,
        UnifiedPoolEvent::V2Transfer => "Transfer(address,address,uint256)"@,
        UnifiedPoolEvent::V3Mint => "Mint(address,address,int24,int24,uint128,uint256,uint256)"@,
        UnifiedPoolEvent::V3Swap => "Swap(address,address,int256,int256,uint160,uint128,int24)"@,
        UnifiedPoolEvent::V3Collect => "Collect(address,address,int24,int24,uint128,uint128)"@,
        UnifiedPoolEvent::V3Burn => "Burn(address,int24,int24,uint128,uint256,uint256)"@,
        UnifiedPoolEvent::V3Flash => "Flash(address,address,uint256,uint256,uint256,uint256)"@,
        UnifiedPoolEvent::V4Donate => "Donate(bytes32,address,uint256,uint256)"@,
        UnifiedPoolEvent::V4Initialize => "Initialize(bytes32,address,address,uint24,int24,address,uint160,int24)"@,
        UnifiedPoolEvent::V4Modify => "ModifyLiquidity(bytes32,address,int24,int24,int256,bytes32)"@,
        UnifiedPoolEvent::V4Swap => "Swap(bytes32,address,int128,int128,uint160,uint128,int24,uint24)"@,
    }
}

/// The topic under which logs of an event kind are emitted: the Keccak-256
/// digest of the UTF-8 bytes of its signature.
pub open spec fn event_topic(e: UnifiedPoolEvent) -> Seq<u8> {
    keccak256_digest(encode_utf8(event_signature(e)))
}

/// Every event kind, in declaration order.
pub open spec fn all_pool_events() -> Seq<UnifiedPoolEvent> {
    seq![
        UnifiedPoolEvent::V2Mint,
        UnifiedPoolEvent::V2Burn,
        UnifiedPoolEvent::V2Swap,
        UnifiedPoolEvent::V2Sync,
        UnifiedPoolEvent::V2Approval,
        UnifiedPoolEvent::V2Transfer,
        UnifiedPoolEvent::V3Mint,
        UnifiedPoolEvent::V3Swap,
        UnifiedPoolEvent::V3Collect,
        UnifiedPoolEvent::V3Burn,
        UnifiedPoolEvent::V3Flash,
        UnifiedPoolEvent::V4Donate,
        UnifiedPoolEvent::V4Initialize,
        UnifiedPoolEvent::V4Modify,
        UnifiedPoolEvent::V4Swap,
    ]
}

/// Where an event kind stands in `all_pool_events`.
pub proof fn lemma_event_position(e: UnifiedPoolEvent) -> (i: int)
    ensures
        0 <= i < all_pool_events().len(),
        all_pool_events()[i] == e,
{
    match e {
        UnifiedPoolEvent::V2Mint => 0,
        UnifiedPoolEvent::V2Burn => 1,
        UnifiedPoolEvent::V2Swap => 2,
        UnifiedPoolEvent::V2Sync => 3,
        UnifiedPoolEvent::V2Approval => 4,
        UnifiedPoolEvent::V2Transfer => 5,
        UnifiedPoolEvent::V3Mint => 6,
        UnifiedPoolEvent::V3Swap => 7,
        UnifiedPoolEvent::V3Collect => 8,
        UnifiedPoolEvent::V3Burn => 9,
        UnifiedPoolEvent::V3Flash => 10,
        UnifiedPoolEvent::V4Donate => 11,
        UnifiedPoolEvent::V4Initialize => 12,
        UnifiedPoolEvent::V4Modify => 13,
        UnifiedPoolEvent::V4Swap => 14,
    }
}

impl UnifiedPoolEvent {
    /// The canonical Solidity signature of this event kind.
    pub fn signature(&self) -> (s: &'static str)
        ensures
            s@ == event_signature(*self),
    {
        match self {
            UnifiedPoolEvent::V2Mint => "Mint(address,uint256,uint256)",
            UnifiedPoolEvent::V2Burn => "Burn(address,uint256,uint256,address)",
            UnifiedPoolEvent::V2Swap => "Swap(address,uint256,uint256,uint256,uint256,address)",
            UnifiedPoolEvent::V2Sync => "Sync(uint112,uint112)",
            UnifiedPoolEvent::V2Approval => "Approval(address,address,uint256)",
            UnifiedPoolEvent::V2Transfer => "Transfer(address,address,uint256)",
            UnifiedPoolEvent::V3Mint => "Mint(address,address,int24,int24,uint128,uint256,uint256)",
            UnifiedPoolEvent::V3Swap => "Swap(address,address,int256,int256,uint160,uint128,int24)",
            UnifiedPoolEvent::V3Collect => "Collect(address,address,int24,int24,uint128,uint128)",
            UnifiedPoolEvent::V3Burn => "Burn(address,int24,int24,uint128,uint256,uint256)",
            UnifiedPoolEvent::V3Flash => "Flash(address,address,uint256,uint256,uint256,uint256)",
            UnifiedPoolEvent::V4Donate => "Donate(bytes32,address,uint256,uint256)",
            UnifiedPoolEvent::V4Initialize => "Initialize(bytes32,address,address,uint24,int24,address,uint160,int24)",
            UnifiedPoolEvent::V4Modify => "ModifyLiquidity(bytes32,address,int24,int24,int256,bytes32)",
            UnifiedPoolEvent::V4Swap => "Swap(bytes32,address,int128,int128,uint160,uint128,int24,uint24)",
        }
    }

    /// The topic of this event kind (Keccak-256 of its signature).
    pub fn topic(&self) -> (t: Topic)
        ensures
            t@ == event_topic(*self),
    {
        keccak256(self.signature().as_bytes())
    }
}

/// Every event kind, in declaration order.
pub fn pool_events() -> (v: Vec<UnifiedPoolEvent>)
    ensures
        v@ == all_pool_events(),
{
    let v = vec![
        UnifiedPoolEvent::V2Mint,
        UnifiedPoolEvent::V2Burn,
        UnifiedPoolEvent::V2Swap,
        UnifiedPoolEvent::V2Sync,
        UnifiedPoolEvent::V2Approval,
        UnifiedPoolEvent::V2Transfer,
        UnifiedPoolEvent::V3Mint,
        UnifiedPoolEvent::V3Swap,
        UnifiedPoolEvent::V3Collect,
        UnifiedPoolEvent::V3Burn,
        UnifiedPoolEvent::V3Flash,
        UnifiedPoolEvent::V4Donate,
        UnifiedPoolEvent::V4Initialize,
        UnifiedPoolEvent::V4Modify,
        UnifiedPoolEvent::V4Swap,
    ];
    assert(v@ =~= all_pool_events());
    v
}

/// The signatures of every event kind, in declaration order: the events a
/// subscription asks for.
pub fn generate_pool_events() -> (v: Vec<&'static str>)
    ensures
        v@.len() == all_pool_events().len(),
        forall|i: int| 0 <= i < v@.len() ==> (#[trigger] v@[i])@ == event_signature(all_pool_events()[i]),
        v@.map_values(|s: &'static str| s@) == all_pool_events().map_values(
            |e: UnifiedPoolEvent| event_signature(e),
        ),
{
    let kinds = pool_events();
    let mut v: Vec<&'static str> = Vec::new();
    let mut i: usize = 0;
    while i < kinds.len()
        invariant
            kinds@ == all_pool_events(),
            i <= kinds@.len(),
            v@.len() == i,
            forall|j: int| 0 <= j < i ==> (#[trigger] v@[j])@ == event_signature(all_pool_events()[j]),
        decreases kinds@.len() - i,
    {
        v.push(kinds[i].signature());
        i = i + 1;
    }
    assert(v@.map_values(|s: &'static str| s@) =~= all_pool_events().map_values(
        |e: UnifiedPoolEvent| event_signature(e),
    ));
    v
}

/// A decoded log, tagged with the kind of event it is.
#[derive(Clone, Debug, PartialEq, Eq)]
pub enum UnifiedPoolEventResponse<T> {
    V2Mint(T),
    V2Burn(T),
    V2Swap(T),
    V2Sync(T),
    V2Approval(T),
    V2Transfer(T),
    V3Mint(T),
    V3Swap(T),
    V3Collect(T),
    V3Burn(T),
    V3Flash(T),
    V4Donate(T),
    V4Initialize(T),
    V4Modify(T),
    V4Swap(T),
}

/// The response that tags `log` with `event`.
pub open spec fn tag<T>(event: UnifiedPoolEvent, log: T) -> UnifiedPoolEventResponse<T> {
    match event {
        UnifiedPoolEvent::V2Mint => UnifiedPoolEventResponse::V2Mint(log),
        UnifiedPoolEvent::V2Burn => UnifiedPoolEventResponse::V2Burn(log),
        UnifiedPoolEvent::V2Swap => UnifiedPoolEventResponse::V2Swap(log),
        UnifiedPoolEvent::V2Sync => UnifiedPoolEventResponse::V2Sync(log),
        UnifiedPoolEvent::V2Approval => UnifiedPoolEventResponse::V2Approval(log),
        UnifiedPoolEvent::V2Transfer => UnifiedPoolEventResponse::V2Transfer(log),
        UnifiedPoolEvent::V3Mint => UnifiedPoolEventResponse::V3Mint(log),
        UnifiedPoolEvent::V3Swap => UnifiedPoolEventResponse::V3Swap(log),
        UnifiedPoolEvent::V3Collect => UnifiedPoolEventResponse::V3Collect(log),
        UnifiedPoolEvent::V3Burn => UnifiedPoolEventResponse::V3Burn(log),
        UnifiedPoolEvent::V3Flash => UnifiedPoolEventResponse::V3Flash(log),
        UnifiedPoolEvent::V4Donate => UnifiedPoolEventResponse::V4Donate(log),
        UnifiedPoolEvent::V4Initialize => UnifiedPoolEventResponse::V4Initialize(log),
        UnifiedPoolEvent::V4Modify => UnifiedPoolEventResponse::V4Modify(log),
        UnifiedPoolEvent::V4Swap => UnifiedPoolEventResponse::V4Swap(log),
    }
}

/// What a decode attempt for `event` gives: the tagged log, or nothing.
pub open spec fn tagged<T>(event: UnifiedPoolEvent, decoded: Option<T>) -> Option<UnifiedPoolEventResponse<T>> {
    match decoded {
        Some(log) => Some(tag(event, log)),
        None => None,
    }
}

impl<T> UnifiedPoolEventResponse<T> {
    /// The event kind this response is tagged with.
    pub open spec fn event(self) -> UnifiedPoolEvent {
        match self {
            UnifiedPoolEventResponse::V2Mint(_) => UnifiedPoolEvent::V2Mint,
            UnifiedPoolEventResponse::V2Burn(_) => UnifiedPoolEvent::V2Burn,
            UnifiedPoolEventResponse::V2Swap(_) => UnifiedPoolEvent::V2Swap,
            UnifiedPoolEventResponse::V2Sync(_) => UnifiedPoolEvent::V2Sync,
            UnifiedPoolEventResponse::V2Approval(_) => UnifiedPoolEvent::V2Approval,
            UnifiedPoolEventResponse::V2Transfer(_) => UnifiedPoolEvent::V2Transfer,
            UnifiedPoolEventResponse::V3Mint(_) => UnifiedPoolEvent::V3Mint,
            UnifiedPoolEventResponse::V3Swap(_) => UnifiedPoolEvent::V3Swap,
            UnifiedPoolEventResponse::V3Collect(_) => UnifiedPoolEvent::V3Collect,
            UnifiedPoolEventResponse::V3Burn(_) => UnifiedPoolEvent::V3Burn,
            UnifiedPoolEventResponse::V3Flash(_) => UnifiedPoolEvent::V3Flash,
            UnifiedPoolEventResponse::V4Donate(_) => UnifiedPoolEvent::V4Donate,
            UnifiedPoolEventResponse::V4Initialize(_) => UnifiedPoolEvent::V4Initialize,
            UnifiedPoolEventResponse::V4Modify(_) => UnifiedPoolEvent::V4Modify,
            UnifiedPoolEventResponse::V4Swap(_) => UnifiedPoolEvent::V4Swap,
        }
    }

    /// The decoded log this response carries.
    pub open spec fn log(self) -> T {
        match self {
            UnifiedPoolEventResponse::V2Mint(l) => l,
            UnifiedPoolEventResponse::V2Burn(l) => l,
            UnifiedPoolEventResponse::V2Swap(l) => l,
            UnifiedPoolEventResponse::V2Sync(l) => l,
            UnifiedPoolEventResponse::V2Approval(l) => l,
            UnifiedPoolEventResponse::V2Transfer(l) => l,
            UnifiedPoolEventResponse::V3Mint(l) => l,
            UnifiedPoolEventResponse::V3Swap(l) => l,
            UnifiedPoolEventResponse::V3Collect(l) => l,
            UnifiedPoolEventResponse::V3Burn(l) => l,
            UnifiedPoolEventResponse::V3Flash(l) => l,
            UnifiedPoolEventResponse::V4Donate(l) => l,
            UnifiedPoolEventResponse::V4Initialize(l) => l,
            UnifiedPoolEventResponse::V4Modify(l) => l,
            UnifiedPoolEventResponse::V4Swap(l) => l,
        }
    }

    /// Tags a decoded log with its event kind.
    pub fn new(event: UnifiedPoolEvent, log: T) -> (r: Self)
        ensures
            r == tag(event, log),
            r.event() == event,
            r.log() == log,
    {
        match event {
            UnifiedPoolEvent::V2Mint => UnifiedPoolEventResponse::V2Mint(log),
            UnifiedPoolEvent::V2Burn => UnifiedPoolEventResponse::V2Burn(log),
            UnifiedPoolEvent::V2Swap => UnifiedPoolEventResponse::V2Swap(log),
            UnifiedPoolEvent::V2Sync => UnifiedPoolEventResponse::V2Sync(log),
            UnifiedPoolEvent::V2Approval => UnifiedPoolEventResponse::V2Approval(log),
            UnifiedPoolEvent::V2Transfer => UnifiedPoolEventResponse::V2Transfer(log),
            UnifiedPoolEvent::V3Mint => UnifiedPoolEventResponse::V3Mint(log),
            UnifiedPoolEvent::V3Swap => UnifiedPoolEventResponse::V3Swap(log),
            UnifiedPoolEvent::V3Collect => UnifiedPoolEventResponse::V3Collect(log),
            UnifiedPoolEvent::V3Burn => UnifiedPoolEventResponse::V3Burn(log),
            UnifiedPoolEvent::V3Flash => UnifiedPoolEventResponse::V3Flash(log),
            UnifiedPoolEvent::V4Donate => UnifiedPoolEventResponse::V4Donate(log),
            UnifiedPoolEvent::V4Initialize => UnifiedPoolEventResponse::V4Initialize(log),
            UnifiedPoolEvent::V4Modify => UnifiedPoolEventResponse::V4Modify(log),
            UnifiedPoolEvent::V4Swap => UnifiedPoolEventResponse::V4Swap(log),
        }
    }
}

} // verus!
