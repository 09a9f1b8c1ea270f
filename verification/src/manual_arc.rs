//! A thread-safe reference-counted pointer whose owners hand back their reference explicitly.
use vstd::prelude::*;
use std::sync::Arc;

verus! {

/// What releasing a reference yields.
#[derive(Clone, Copy, PartialEq, Eq, PartialOrd, Ord, Debug)]
pub enum Release<T> {
    /// There are other outstanding references to this object.
    Shared,
    /// This was the final reference, contains the object the container was previously holding.
    Unique(T),
}

impl<T> Release<T> {
    /// The release outcome for what giving up a reference yields: the object when it was the last
    /// reference, [`Release::Shared`] when other references remain.
    pub fn from_last(last: Option<T>) -> (res: Self)
        ensures
            match last {
                Some(value) => res == Release::Unique(value),
                None => res == Release::<T>::Shared,
            },
    {
        match last {
            Some(value) => Release::Unique(value),
            None => Release::Shared,
        }
    }
}

/// A thread-safe reference-counting pointer with manual management.
///
/// Cloning a [`ManualArc`] produces a new instance that points to the same allocation while
/// increasing a reference count. [`ManualArc::release`] gives up one reference, returning
/// [`Release::Shared`] if others are outstanding, or [`Release::Unique`] with the contained object
/// if it removed the final one.
pub struct ManualArc<T> {
    inner: Arc<T>,
}

/// `Arc::clone`: a new reference to the same allocation.
///
/// The contract states that the new reference points to the same value.
#[verifier::external_body]
fn arc_clone<T>(arc: &Arc<T>) -> (res: Arc<T>)
    ensures
        *res == **arc,
{
    Arc::clone(arc)
}

/// `Arc::into_inner`: the contained value if `arc` is the last reference, nothing otherwise (the
/// reference is dropped then).
///
/// The contract states that a value that comes back is the one `arc` pointed to. Whether it comes
/// back depends on how many other references exist at the time of the call, which nothing here
/// tracks; its documentation promises that when every reference is given up this way,
/// exactly one of the calls returns the value.
#[verifier::external_body]
fn arc_into_inner<T>(arc: Arc<T>) -> (res: Option<T>)
    ensures
        res matches Some(value) ==> value == *arc,
{
    Arc::into_inner(arc)
}

impl<T> View for ManualArc<T> {
    type V = T;

    closed spec fn view(&self) -> T {
        *self.inner
    }
}

impl<T> ManualArc<T> {
    /// Creates the first reference to a new allocation holding `value`.
    pub fn new(value: T) -> (res: Self)
        ensures
            res@ == value,
    {
        Self { inner: Arc::new(value) }
    }

    /// Consumes `self`, decrementing the reference count.
    ///
    /// Returns [`Release::Shared`] if other [`ManualArc`] instances still hold references to the
    /// same object, or [`Release::Unique`] with the previously contained object if the release
    /// removes the last reference.
    ///
    /// Whether other references are outstanding is not tracked in the contract, so it states only
    /// that a returned object is the shared one; [`Release::from_last`] says which variant each
    /// outcome of giving up the reference produces.
    pub fn release(self) -> (res: Release<T>)
        ensures
            res matches Release::Unique(value) ==> value == self@,
    {
        Release::from_last(arc_into_inner(self.inner))
    }

    /// The shared value.
    pub fn get(&self) -> (res: &T)
        ensures
            *res == self@,
    {
        &*self.inner
    }
}

impl<T: Default> Default for ManualArc<T> {
    fn default() -> (res: Self)
        ensures
            call_ensures(T::default, (), res@),
    {
        Self::new(T::default())
    }
}

impl<T> Clone for ManualArc<T> {
    fn clone(&self) -> (res: Self)
        ensures
            res@ == self@,
    {
        Self { inner: arc_clone(&self.inner) }
    }
}

impl<T> core::ops::Deref for ManualArc<T> {
    type Target = T;

    fn deref(&self) -> (res: &T)
        ensures
            *res == self@,
    {
        &*self.inner
    }
}

} // verus!
