use vstd::prelude::*;

verus! {

/// Conversion of a reference to a reference of a more general type.
pub trait Upcast<T: ?Sized> {
    fn upcast(&self) -> &T;
}

} // verus!
