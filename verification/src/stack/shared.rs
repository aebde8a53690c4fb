//! A stack that serves every target with a clone of one value.

use vstd::prelude::*;

verus! {

/// Implements a stack for any target by cloning a `V`-typed value.
#[derive(Clone, Debug)]
pub struct Shared<V>(V);

pub fn new<V: Clone>(v: V) -> (r: Shared<V>)
    ensures
        r.value() == v,
{
    Shared(v)
}

impl<V> Shared<V> {
    /// The shared value.
    pub closed spec fn value(&self) -> V {
        self.0
    }
}

impl<V: Clone> Shared<V> {
    /// The value served for any target: a clone of the shared one.
    pub fn get(&self) -> (r: V)
        ensures
            cloned(self.value(), r),
    {
        self.0.clone()
    }
}

} // verus!
