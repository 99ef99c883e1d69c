//! Splitting an object into two halves and uniting them again.

use vstd::prelude::*;

verus! {

/// Provides abstraction over splitting an object into two different types.
///
/// This trait is useful for splitting a stream into a read half and a write
/// half, and a listener into a read listener and a write listener.
pub trait Split: Sized {
    /// Left half of split item
    type Left;
    /// Right half of split item
    type Right;
    /// Error returned by associated method `unsplit(_, _)`.
    type Error;

    /// Split self into left and right halfs.
    fn split(self) -> (Self::Left, Self::Right);

    /// Unite left half and right half into `Self` again.
    fn unsplit(left: Self::Left, right: Self::Right) -> Result<Self, Self::Error>;
}

} // verus!
