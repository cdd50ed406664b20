//! A value tied to the lifetime of what it was taken from.

use std::marker::PhantomData;
use vstd::prelude::*;

verus! {

pub struct Lifetime<'a, T> {
    _value: T,
    _marker: PhantomData<&'a T>,
}

impl<T> Lifetime<'_, T> {
    /// The value inside.
    pub closed spec fn value(self) -> T {
        self._value
    }

    pub fn new(value: T) -> (wrapped: Self)
        ensures
            wrapped.value() == value,
    {
        Self { _value: value, _marker: PhantomData }
    }

    /// Takes the value out. From here on nothing ties it to the lifetime
    /// any more: the caller has to keep it within that lifetime.
    pub fn into_inner(self) -> (value: T)
        ensures
            value == self.value(),
    {
        self._value
    }
}

} // verus!
