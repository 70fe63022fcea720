//! Slices that the kernel allocates and hands to an engine.

use vstd::prelude::*;
use vstd::std_specs::convert::{FromSpec, FromSpecImpl};

verus! {

/// Boolean values that the kernel allocated. Whoever holds the slice owns it, and gives it up by
/// [`free_bool_slice`].
pub struct KernelBoolSlice {
    values: Vec<bool>,
}

/// Row indexes that the kernel allocated. Whoever holds the array owns it, and gives it up by
/// [`free_row_indexes`].
pub struct KernelRowIndexArray {
    indexes: Vec<u64>,
}

impl View for KernelBoolSlice {
    type V = Seq<bool>;

    closed spec fn view(&self) -> Seq<bool> {
        self.values@
    }
}

impl View for KernelRowIndexArray {
    type V = Seq<u64>;

    closed spec fn view(&self) -> Seq<u64> {
        self.indexes@
    }
}

impl KernelBoolSlice {
    /// Makes an empty slice.
    pub fn empty() -> (slice: KernelBoolSlice)
        ensures
            slice@ == Seq::<bool>::empty(),
    {
        KernelBoolSlice { values: Vec::new() }
    }

    /// The values.
    pub fn as_ref(&self) -> (values: &[bool])
        ensures
            values@ == self@,
    {
        self.values.as_slice()
    }

    /// Turns the slice back into a vector.
    pub fn into_vec(self) -> (values: Vec<bool>)
        ensures
            values@ == self@,
    {
        self.values
    }
}

impl From<Vec<bool>> for KernelBoolSlice {
    fn from(val: Vec<bool>) -> (slice: Self)
        ensures
            slice@ == val@,
    {
        KernelBoolSlice { values: val }
    }
}

impl FromSpecImpl<Vec<bool>> for KernelBoolSlice {
    open spec fn obeys_from_spec() -> bool {
        true
    }

    closed spec fn from_spec(val: Vec<bool>) -> Self {
        KernelBoolSlice { values: val }
    }
}

impl KernelRowIndexArray {
    /// Turns the array back into a vector.
    pub fn into_vec(self) -> (indexes: Vec<u64>)
        ensures
            indexes@ == self@,
    {
        self.indexes
    }

    /// Makes an empty array.
    pub fn empty() -> (array: KernelRowIndexArray)
        ensures
            array@ == Seq::<u64>::empty(),
    {
        KernelRowIndexArray { indexes: Vec::new() }
    }
}

impl From<Vec<u64>> for KernelRowIndexArray {
    fn from(vec: Vec<u64>) -> (array: Self)
        ensures
            array@ == vec@,
    {
        KernelRowIndexArray { indexes: vec }
    }
}

impl FromSpecImpl<Vec<u64>> for KernelRowIndexArray {
    open spec fn obeys_from_spec() -> bool {
        true
    }

    closed spec fn from_spec(vec: Vec<u64>) -> Self {
        KernelRowIndexArray { indexes: vec }
    }
}

/// Takes a slice back from an engine and releases it.
pub fn free_bool_slice(slice: KernelBoolSlice) {
    let _ = slice.into_vec();
}

/// Takes an array back from an engine and releases it.
pub fn free_row_indexes(slice: KernelRowIndexArray) {
    let _ = slice.into_vec();
}

/// A slice or an array that is made from a vector holds the vector's elements, so that turning it
/// back gives them again, in order.
pub proof fn law_slices_keep_elements(values: Vec<bool>, indexes: Vec<u64>)
    ensures
        <KernelBoolSlice as FromSpec<Vec<bool>>>::from_spec(values)@ == values@,
        <KernelRowIndexArray as FromSpec<Vec<u64>>>::from_spec(indexes)@ == indexes@,
{
}

} // verus!
