//! A set of addresses kept as a list in which no address occurs twice.
use crate::bytes::{same_bytes, Address};
use vstd::prelude::*;

verus! {

/// A set of addresses.
#[derive(Debug)]
pub struct AddressSet {
    items: Vec<Address>,
}

impl AddressSet {
    #[verifier::type_invariant]
    spec fn no_repeats(self) -> bool {
        forall|i: int, j: int|
            0 <= i < j < self.items@.len() ==> (#[trigger] self.items@[i])@
                != (#[trigger] self.items@[j])@
    }

    /// The addresses in the set, each by its bytes.
    pub closed spec fn view(self) -> Set<Seq<u8>> {
        Set::new(|a: Seq<u8>| exists|i: int| 0 <= i < self.items@.len() && self.items@[i]@ == a)
    }

    /// The empty set.
    pub fn new() -> (s: Self)
        ensures
            s.view() == Set::<Seq<u8>>::empty(),
    {
        let s = AddressSet { items: Vec::new() };
        assert(s.view() =~= Set::<Seq<u8>>::empty());
        s
    }

    /// Whether `a` is in the set.
    pub fn contains(&self, a: &Address) -> (r: bool)
        ensures
            r == self.view().contains(a@),
    {
        let mut i: usize = 0;
        while i < self.items.len()
            invariant
                i <= self.items@.len(),
                forall|j: int| 0 <= j < i ==> self.items@[j]@ != a@,
            decreases self.items@.len() - i,
        {
            if same_bytes(&self.items[i], a) {
                assert(0 <= i < self.items@.len() && self.items@[i as int]@ == a@);
                return true;
            }
            i = i + 1;
        }
        false
    }

    /// Adds `a` to the set; nothing changes if it is there already.
    pub fn insert(&mut self, a: Address)
        ensures
            final(self).view() == old(self).view().insert(a@),
    {
        proof {
            use_type_invariant(&*self);
        }
        let ghost before = self.view();
        let ghost old_items = self.items@;
        if !self.contains(&a) {
            let mut items: Vec<Address> = Vec::new();
            std::mem::swap(&mut items, &mut self.items);
            items.push(a);
            proof {
                assert forall|i: int, j: int|
                    0 <= i < j < items@.len() implies (#[trigger] items@[i])@
                        != (#[trigger] items@[j])@ by {
                    if j == old_items.len() && old_items[i]@ == a@ {
                        assert(before.contains(a@));
                    }
                }
            }
            self.items = items;
            proof {
                assert forall|x: Seq<u8>| #[trigger] self.view().contains(x) == before.insert(a@).contains(x) by {
                    if self.view().contains(x) {
                        let i = choose|i: int| 0 <= i < self.items@.len() && self.items@[i]@ == x;
                        if i < old_items.len() {
                            assert(old_items[i]@ == x);
                        }
                    }
                    if before.contains(x) {
                        let i = choose|i: int| 0 <= i < old_items.len() && old_items[i]@ == x;
                        assert(self.items@[i]@ == x);
                    }
                    if x == a@ {
                        assert(self.items@[old_items.len() as int]@ == x);
                    }
                }
                assert(self.view() =~= before.insert(a@));
            }
        } else {
            assert(self.view() =~= before.insert(a@));
        }
    }

    /// The set of the given addresses (duplicates collapse).
    pub fn from_addresses(addresses: Vec<Address>) -> (s: Self)
        ensures
            s.view() == addresses@.map_values(|a: Address| a@).to_set(),
    {
        let mut s = AddressSet::new();
        let mut i: usize = 0;
        while i < addresses.len()
            invariant
                i <= addresses@.len(),
                s.view() == addresses@.take(i as int).map_values(|a: Address| a@).to_set(),
            decreases addresses@.len() - i,
        {
            s.insert(addresses[i]);
            proof {
                assert(addresses@.take(i + 1).map_values(|a: Address| a@) =~= addresses@.take(
                    i as int,
                ).map_values(|a: Address| a@).push(addresses@[i as int]@));
                addresses@.take(i as int).map_values(|a: Address| a@).lemma_push_to_set_commute(
                    addresses@[i as int]@,
                );
                assert(addresses@.take(i + 1).map_values(|a: Address| a@).to_set() =~= addresses@.take(
                    i as int,
                ).map_values(|a: Address| a@).to_set().insert(addresses@[i as int]@));
            }
            i = i + 1;
        }
        assert(addresses@.take(addresses@.len() as int) =~= addresses@);
        s
    }
}

impl View for AddressSet {
    type V = Set<Seq<u8>>;

    open spec fn view(&self) -> Set<Seq<u8>> {
        AddressSet::view(*self)
    }
}

} // verus!
