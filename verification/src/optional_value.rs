//! Optional values passed between the kernel and an engine.

use vstd::prelude::*;
use vstd::std_specs::convert::{FromSpec, FromSpecImpl};

verus! {

/// An optional value with a layout that an engine can rely on.
#[derive(PartialEq, Debug)]
pub enum OptionalValue<T> {
    Present(T),
    Absent,
}

impl<T> OptionalValue<T> {
    /// The value as an `Option`.
    pub open spec fn as_option(self) -> Option<T> {
        match self {
            OptionalValue::Present(value) => Some(value),
            OptionalValue::Absent => None,
        }
    }
}

impl<T> From<Option<T>> for OptionalValue<T> {
    fn from(item: Option<T>) -> (r: Self) {
        match item {
            Some(value) => OptionalValue::Present(value),
            None => OptionalValue::Absent,
        }
    }
}

impl<T> FromSpecImpl<Option<T>> for OptionalValue<T> {
    open spec fn obeys_from_spec() -> bool {
        true
    }

    open spec fn from_spec(item: Option<T>) -> Self {
        match item {
            Some(value) => OptionalValue::Present(value),
            None => OptionalValue::Absent,
        }
    }
}

/// Converting an `Option` keeps whether there is a value, and which.
pub proof fn law_optional_value_keeps_value<T>(item: Option<T>)
    ensures
        <OptionalValue<T> as FromSpec<Option<T>>>::from_spec(item).as_option() == item,
{
}

/// A value that is there is passed as it is, and no value as no value.
pub proof fn law_optional_value_variants<T>(value: T)
    ensures
        <OptionalValue<T> as FromSpec<Option<T>>>::from_spec(Some(value))
            == OptionalValue::Present(value),
        <OptionalValue<T> as FromSpec<Option<T>>>::from_spec(None) == OptionalValue::<T>::Absent,
        OptionalValue::Present(value).as_option() == Some(value),
        OptionalValue::<T>::Absent.as_option() is None,
{
}

} // verus!
