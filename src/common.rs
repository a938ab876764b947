use vstd::prelude::*;

verus! {

/// Conversion of a value into the plain array form that the graphics
/// library takes.
pub trait ToArray {
    type Output;

    /// The array that stands for this value.
    spec fn array_of(&self) -> Self::Output;

    fn to_array(&self) -> (r: Self::Output)
        ensures
            r == self.array_of(),
    ;
}

} // verus!
