//! Conversions between [`NoStdCow`] and the allocator-backed
//! `std::borrow::Cow`. They re-tag the value without copying it.

use vstd::prelude::*;
use crate::NoStdCow;

verus! {

use std::borrow::Cow;

impl<'a, T: Clone> NoStdCow<'a, T, T> {
    /// The `std::borrow::Cow` holding the same shape and the same data.
    pub open spec fn to_std_spec(self) -> Cow<'a, T> {
        match self {
            NoStdCow::Borrowed(b) => Cow::Borrowed(b),
            NoStdCow::Owned(v) => Cow::Owned(v),
        }
    }

    /// The [`NoStdCow`] holding the same shape and the same data as a
    /// `std::borrow::Cow`.
    pub open spec fn from_std_spec(cow: Cow<'a, T>) -> Self {
        match cow {
            Cow::Borrowed(b) => NoStdCow::Borrowed(b),
            Cow::Owned(v) => NoStdCow::Owned(v),
        }
    }

    /// Convert this [`NoStdCow`] into a `std::borrow::Cow`, keeping the
    /// variant and moving the payload.
    pub fn into_std_cow(self) -> (r: Cow<'a, T>)
        ensures
            r == self.to_std_spec(),
    {
        match self {
            NoStdCow::Borrowed(b) => Cow::Borrowed(b),
            NoStdCow::Owned(v) => Cow::Owned(v),
        }
    }

    /// Convert a `std::borrow::Cow` into a [`NoStdCow`], keeping the variant
    /// and moving the payload.
    pub fn from_std_cow(cow: Cow<'a, T>) -> (r: Self)
        ensures
            r == Self::from_std_spec(cow),
    {
        match cow {
            Cow::Borrowed(b) => NoStdCow::Borrowed(b),
            Cow::Owned(v) => NoStdCow::Owned(v),
        }
    }
}

impl<'a, T: Clone> From<Cow<'a, T>> for NoStdCow<'a, T, T> {
    /// Re-tags the `std::borrow::Cow` without copying its data.
    fn from(value: Cow<'a, T>) -> (r: Self)
        ensures
            r == NoStdCow::<'a, T, T>::from_std_spec(value),
    {
        NoStdCow::from_std_cow(value)
    }
}

impl<'a, T: Clone> vstd::std_specs::convert::FromSpecImpl<Cow<'a, T>> for NoStdCow<'a, T, T> {
    open spec fn obeys_from_spec() -> bool {
        true
    }

    open spec fn from_spec(v: Cow<'a, T>) -> Self {
        NoStdCow::from_std_spec(v)
    }
}

impl<'a, T: Clone> From<NoStdCow<'a, T, T>> for Cow<'a, T> {
    /// Re-tags the [`NoStdCow`] without copying its data.
    fn from(value: NoStdCow<'a, T, T>) -> (r: Self)
        ensures
            r == value.to_std_spec(),
    {
        value.into_std_cow()
    }
}

impl<'a, T: Clone> vstd::std_specs::convert::FromSpecImpl<NoStdCow<'a, T, T>> for Cow<'a, T> {
    open spec fn obeys_from_spec() -> bool {
        true
    }

    open spec fn from_spec(v: NoStdCow<'a, T, T>) -> Self {
        v.to_std_spec()
    }
}

/// Converting to the allocator-backed container and back is the identity, in
/// both directions: the variant and the data it carries survive the round
/// trip unchanged.
pub proof fn lemma_std_cow_round_trip<'a, T: Clone>(c: NoStdCow<'a, T, T>, w: Cow<'a, T>)
    ensures
        NoStdCow::<'a, T, T>::from_std_spec(c.to_std_spec()) == c,
        NoStdCow::<'a, T, T>::from_std_spec(w).to_std_spec() == w,
{
}

} // verus!
