//! A layer that maps targets before they reach the inner stack.

use vstd::prelude::*;

verus! {

/// Maps a `T`-typed target to a `Target`.
pub trait MapTarget<T> {
    type Target;

    fn map_target(&self, t: T) -> Self::Target;
}

#[derive(Clone, Debug)]
pub struct Layer<M>(M);

/// A service that maps each target by `map_target` before calling `inner`.
#[derive(Clone, Debug)]
pub struct Service<S, M> {
    pub inner: S,
    pub map_target: M,
}

impl<M> Layer<M> {
    /// The target mapping.
    pub closed spec fn mapping(&self) -> M {
        self.0
    }
}

pub fn layer<T, M: MapTarget<T>>(map_target: M) -> (r: Layer<M>)
    ensures
        r.mapping() == map_target,
{
    Layer(map_target)
}

impl<T, S, M: MapTarget<T> + Clone> super::Layer<T, M::Target, S> for Layer<M> {
    type Stack = Service<S, M>;

    fn bind(&self, inner: S) -> (r: Service<S, M>)
        ensures
            r.inner == inner,
            cloned(self.mapping(), r.map_target),
    {
        Service { inner, map_target: self.0.clone() }
    }
}

} // verus!
