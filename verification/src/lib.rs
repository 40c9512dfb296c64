//! A clone-on-write container that works without an allocator.
//!
//! [`NoStdCow`] is a two-variant container: it either borrows a value of the
//! view kind `B` or owns a value of kind `T`. Read access treats both shapes
//! uniformly; when the two kinds coincide (the [`RefCow`] alias), the data can
//! be upgraded to an owned value on demand, cloning only when it is still
//! borrowed. Conversions to and from the allocator-backed `std::borrow::Cow`
//! live in [`alloc_interop`].

use vstd::prelude::*;

pub mod alloc_interop;

verus! {

use core::borrow::Borrow;

/// A [`NoStdCow`] whose owned kind and borrowed kind coincide. This is the
/// shape on which the owned-acquisition operations (`to_mut`, `into_owned`)
/// are available, since they need to rebuild a `T` from a `&T` by cloning.
pub type RefCow<'a, T> = NoStdCow<'a, T, T>;

/// A clone-on-write container: either a reference to data owned elsewhere, or
/// an owned value.
///
/// Unlike the allocator-backed `std::borrow::Cow`, the owned kind `T` is an
/// explicit type parameter related to the borrowed kind `B` only by the
/// `Borrow` capability, and upgrading relies on `Clone` instead of `ToOwned`.
///
/// The derived comparison and hashing impls are structural: they compare the
/// variant tag first, so a `Borrowed` container never equals an `Owned` one.
#[derive(Debug, Clone, PartialEq, Eq, Hash, PartialOrd, Ord)]
pub enum NoStdCow<'a, T: Borrow<B>, B: ?Sized> {
    /// A reference to data of kind `B` that the container does not own; the
    /// referenced data must outlive every use of the container in this state.
    Borrowed(&'a B),
    /// A value of kind `T` that the container owns exclusively.
    Owned(T),
}

impl<'a, T: Borrow<B>, B: ?Sized> NoStdCow<'a, T, B> {
    /// Returns true if the data is borrowed, i.e. if upgrading to an owned
    /// value would still have to clone.
    pub fn is_borrowed(&self) -> (r: bool)
        ensures
            r == (self is Borrowed),
    {
        match self {
            NoStdCow::Borrowed(_) => true,
            NoStdCow::Owned(_) => false,
        }
    }

    /// Returns true if the data is owned, i.e. if upgrading to an owned value
    /// would be free.
    pub fn is_owned(&self) -> (r: bool)
        ensures
            r == (self is Owned),
    {
        match self {
            NoStdCow::Borrowed(_) => false,
            NoStdCow::Owned(_) => true,
        }
    }
}

impl<'a, T> NoStdCow<'a, T, T> {
    /// The logical value of the container: the referenced data when borrowed,
    /// the held value when owned.
    pub open spec fn spec_value(self) -> T {
        match self {
            NoStdCow::Borrowed(b) => *b,
            NoStdCow::Owned(v) => v,
        }
    }
}

impl<'a, T> core::ops::Deref for NoStdCow<'a, T, T> {
    type Target = T;

    /// Read access that treats both shapes uniformly: a shared reference to
    /// the logical value. Never mutates the container or changes its variant.
    fn deref(&self) -> (r: &T)
        ensures
            *r == self.spec_value(),
    {
        match self {
            NoStdCow::Borrowed(b) => b,
            NoStdCow::Owned(v) => v,
        }
    }
}

impl<'a, T: Clone> NoStdCow<'a, T, T> {
    /// What the mutable-owned-access operation promises of the owned value it
    /// settles on: a clone of the logical value, and the held value itself,
    /// untouched, when the container already owned its data.
    pub open spec fn upgrade_post(self, v: T) -> bool {
        &&& cloned(self.spec_value(), v)
        &&& self is Owned ==> v == self.spec_value()
    }

    /// What the consuming extraction promises of the value it returns: a clone
    /// of the logical value, and the held value itself, untouched, when the
    /// container already owned its data.
    pub open spec fn extraction_post(self, v: T) -> bool {
        &&& cloned(self.spec_value(), v)
        &&& self is Owned ==> v == self.spec_value()
    }

    /// Acquires a mutable reference to the owned form of the data, cloning the
    /// referenced data first if the container does not own it yet. Afterwards
    /// the container is `Owned`, holding whatever the caller leaves behind the
    /// returned reference; it never reverts to `Borrowed`.
    pub fn to_mut(&mut self) -> (r: &mut T)
        ensures
            old(self).upgrade_post(*r),
            *final(self) == NoStdCow::<'a, T, T>::Owned(*final(r)),
    {
        match self {
            NoStdCow::Owned(v) => v,
            NoStdCow::Borrowed(b) => {
                let owned: T = <T as Clone>::clone(b);
                *self = NoStdCow::Owned(owned);
                match self {
                    NoStdCow::Owned(v) => v,
                    NoStdCow::Borrowed(_) => unreached(),
                }
            },
        }
    }

    /// Extracts the owned data, cloning the referenced data if the container
    /// does not own it. Consumes the container.
    pub fn into_owned(self) -> (r: T)
        ensures
            self.extraction_post(r),
    {
        match self {
            NoStdCow::Owned(v) => v,
            NoStdCow::Borrowed(b) => <T as Clone>::clone(b),
        }
    }
}

/// Holds when `v` is a value that `T::default()` can return.
pub open spec fn is_default_of<T: Default>(v: T) -> bool {
    call_ensures(<T as Default>::default, (), v)
}

impl<'a, T: Borrow<B> + Default, B: ?Sized> Default for NoStdCow<'a, T, B> {
    /// The default container owns the owned kind's default value.
    fn default() -> (r: Self)
        ensures
            r is Owned,
            is_default_of(r->Owned_0),
    {
        NoStdCow::Owned(T::default())
    }
}

impl<'a, T: Borrow<B>, B: ?Sized> From<&'a B> for NoStdCow<'a, T, B> {
    /// Wraps the reference without copying: the container starts out borrowed.
    fn from(value: &'a B) -> (r: Self)
        ensures
            r == NoStdCow::<'a, T, B>::Borrowed(value),
    {
        NoStdCow::Borrowed(value)
    }
}

impl<'a, T: Borrow<B>, B: ?Sized> vstd::std_specs::convert::FromSpecImpl<&'a B> for NoStdCow<'a, T, B> {
    open spec fn obeys_from_spec() -> bool {
        true
    }

    open spec fn from_spec(v: &'a B) -> Self {
        NoStdCow::Borrowed(v)
    }
}

/// Constructing a container fixes its variant: wrapping a reference gives a
/// container that reports itself as borrowed and not owned, and wrapping a
/// value gives one that reports itself as owned and not borrowed.
pub proof fn lemma_construction_variants<'a, T: Borrow<B>, B: ?Sized>(r: &'a B, v: T)
    ensures
        NoStdCow::<'a, T, B>::Borrowed(r) is Borrowed,
        !(NoStdCow::<'a, T, B>::Borrowed(r) is Owned),
        NoStdCow::<'a, T, B>::Owned(v) is Owned,
        !(NoStdCow::<'a, T, B>::Owned(v) is Borrowed),
{
}

/// Construction fixes the logical value: a container wrapping a reference
/// reads back as the referenced data, and a container wrapping a value reads
/// back as that value (its borrowed projection, which is the value itself
/// when the two kinds coincide).
pub proof fn lemma_construction_value<'a, T>(r: &'a T, v: T)
    ensures
        NoStdCow::<'a, T, T>::Borrowed(r).spec_value() == *r,
        NoStdCow::<'a, T, T>::Owned(v).spec_value() == v,
{
}

/// Upgrading is idempotent: a container is owned after any upgrade, and a
/// further upgrade of an owned container hands back the held value itself,
/// with no duplication.
pub proof fn lemma_upgrade_idempotent<'a, T: Clone>(c: NoStdCow<'a, T, T>, v1: T, v2: T)
    requires
        c.upgrade_post(v1),
        NoStdCow::<'a, T, T>::Owned(v1).upgrade_post(v2),
    ensures
        v2 == v1,
{
}

/// Upgrading a borrowed container settles on a clone of the referenced data;
/// `to_mut`'s contract adds that the container is owned afterwards.
pub proof fn lemma_upgrade_from_borrowed<'a, T: Clone>(r: &'a T, v: T)
    requires
        NoStdCow::<'a, T, T>::Borrowed(r).upgrade_post(v),
    ensures
        cloned(*r, v),
{
}

/// The consuming extraction and the mutable-owned-access operation admit
/// exactly the same owned values for a given container: extracting from a
/// container is equivalent to upgrading a copy of it and reading the value
/// the copy settles on.
pub proof fn lemma_extraction_matches_upgrade<'a, T: Clone>(c: NoStdCow<'a, T, T>, v: T)
    ensures
        c.extraction_post(v) <==> c.upgrade_post(v),
{
}

} // verus!
