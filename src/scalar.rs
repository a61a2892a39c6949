//! Scalars: single values handed to the numeric backend.
use vstd::prelude::*;

verus! {

/// A single value of element type `T`.
#[derive(Clone, Copy, Debug, PartialEq)]
pub struct Scalar<T> {
    pub value: T,
}

/// Lifts a plain value into a `Scalar`.
pub trait ScalarExt: Sized {
    fn literal(self) -> (r: Scalar<Self>)
        ensures
            r.value == self,
    ;
}

impl<T> ScalarExt for T {
    fn literal(self) -> (r: Scalar<Self>) {
        Scalar { value: self }
    }
}

} // verus!
