//! Iterators that an engine provides.

use vstd::prelude::*;

verus! {

/// An iterator that an engine provides: data of its own, and a function that advances the data
/// and returns the address of the next item, or zero where there is none.
pub struct EngineIterator<D, F> {
    data: D,
    get_next: F,
}

/// The item at an address: none where the address is zero.
pub open spec fn item_at(address: usize) -> Option<usize> {
    if address == 0 {
        None
    } else {
        Some(address)
    }
}

/// Tells a null address from the address of an item.
pub fn non_null_item(address: usize) -> (item: Option<usize>)
    ensures
        item == item_at(address),
{
    if address == 0 {
        None
    } else {
        Some(address)
    }
}

impl<D, F> EngineIterator<D, F> {
    /// The engine's data.
    pub closed spec fn engine_data(&self) -> D {
        self.data
    }

    /// The engine's function.
    pub closed spec fn get_next_fn(&self) -> F {
        self.get_next
    }

    /// Wraps an engine's data and function.
    pub fn new(data: D, get_next: F) -> (iterator: Self)
        ensures
            iterator.engine_data() == data,
            iterator.get_next_fn() == get_next,
    {
        EngineIterator { data, get_next }
    }
}

impl<D: Copy, F: Fn(D) -> usize> EngineIterator<D, F> {
    /// Asks the engine for the next item.
    pub fn next(&mut self) -> (item: Option<usize>)
        requires
            call_requires(old(self).get_next_fn(), (old(self).engine_data(),)),
        ensures
            *final(self) == *old(self),
            exists|address: usize| #[trigger]
                call_ensures(old(self).get_next_fn(), (old(self).engine_data(),), address) && item
                    == item_at(address),
    {
        let address: usize = (self.get_next)(self.data);
        non_null_item(address)
    }
}

/// Zero alone is no item: every other address is an item, the one at that address.
pub proof fn law_zero_alone_ends_the_items(address: usize)
    ensures
        address == 0 <==> item_at(address) is None,
        item_at(address) matches Some(item) ==> item == address,
{
}

} // verus!
