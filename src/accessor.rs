//! A thin view over a slice whose indexing is checked once, by the caller's
//! precondition, rather than at run time.
use vstd::prelude::*;

verus! {

/// Wraps a slice (or any other value) so that element access can be stated
/// with a precondition instead of a run-time bounds check.
#[derive(Debug, PartialEq, Eq, PartialOrd, Ord, Clone, Copy)]
pub struct SliceAccessor<T> {
    slice: T,
}

impl<T> SliceAccessor<T> {
    /// The wrapped value.
    pub closed spec fn inner(&self) -> T {
        self.slice
    }

    pub fn new(x: T) -> (r: Self)
        ensures
            r.inner() == x,
    {
        SliceAccessor { slice: x }
    }

    /// Gives the wrapped value back.
    pub fn into_inner(self) -> (r: T)
        ensures
            r == self.inner(),
    {
        self.slice
    }

    /// Borrows the wrapped value.
    pub fn as_inner(&self) -> (r: &T)
        ensures
            *r == self.inner(),
    {
        &self.slice
    }
}

impl<'a, E> SliceAccessor<&'a [E]> {
    /// Number of elements in the wrapped slice.
    pub fn len(&self) -> (r: usize)
        ensures
            r == self.inner()@.len(),
    {
        self.slice.len()
    }

    /// Element `i`; the caller guarantees that it exists.
    pub fn get(&self, i: usize) -> (r: &'a E)
        requires
            i < self.inner()@.len(),
        ensures
            *r == self.inner()@[i as int],
    {
        &self.slice[i]
    }
}

} // verus!
