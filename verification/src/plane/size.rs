use vstd::prelude::*;

verus! {

/// An extent in the plane: a width and a height.
///
/// Neither magnitude is required to be non-negative; callers that need a
/// normalised extent must establish that themselves.
#[derive(Copy, Debug, PartialEq, Eq, Structural)]
pub struct Size<I> {
    pub width: I,
    pub height: I,
}

impl<I: Copy> Clone for Size<I> {
    /// Duplicating a size yields a value equal to the original.
    fn clone(&self) -> (res: Self)
        ensures
            res == *self,
    {
        *self
    }
}

} // verus!
