//! The two building blocks of a stack: a `Stack` makes a value for a target,
//! and a `Layer` wraps a stack in another.

use vstd::prelude::*;

verus! {

/// Makes a `Value` for each target.
pub trait Stack<T> {
    type Value;
    type Error;

    fn make(&self, target: &T) -> Result<Self::Value, Self::Error>;
}

/// Wraps an `N`-typed stack for `U`-typed targets into a `Stack`-typed one
/// for `T`-typed targets.
pub trait Layer<T, U, N> {
    type Stack;

    fn bind(&self, next: N) -> Self::Stack;
}

} // verus!
