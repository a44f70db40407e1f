//! What a log subscription chunk records besides its live subscription.
use crate::address_set::AddressSet;
use crate::bytes::Address;
use vstd::prelude::*;

verus! {

/// The addresses and event signatures a log subscription was opened for.
#[derive(Debug)]
pub struct WsSubChunk {
    pub targets: AddressSet,
    pub events: Vec<&'static str>,
}

impl WsSubChunk {
    /// The record of a subscription opened for `addresses` and `events`:
    /// the set of the addresses, and the events as given.
    pub fn new(addresses: Vec<Address>, events: Vec<&'static str>) -> (c: Self)
        ensures
            c.targets@ == addresses@.map_values(|a: Address| a@).to_set(),
            c.events@ == events@,
    {
        WsSubChunk { targets: AddressSet::from_addresses(addresses), events }
    }

    /// Joining another chunk changes nothing.
    pub fn join(&mut self, other: WsSubChunk)
        ensures
            *final(self) == *old(self),
    {
    }
}

} // verus!
