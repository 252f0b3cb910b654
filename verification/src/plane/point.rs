use vstd::prelude::*;

verus! {

/// A position in the plane: one coordinate per axis.
#[derive(Copy, Debug, PartialEq, Eq, Structural)]
pub struct Point<I> {
    pub x: I,
    pub y: I,
}

impl<I: Copy> Clone for Point<I> {
    /// Duplicating a point yields a value equal to the original.
    fn clone(&self) -> (res: Self)
        ensures
            res == *self,
    {
        *self
    }
}

} // verus!
