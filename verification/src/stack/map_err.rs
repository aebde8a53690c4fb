//! A layer that maps a service's errors.

use vstd::prelude::*;

verus! {

/// Maps an `Input` error to an `Output` error.
pub trait MapErr<Input> {
    type Output;

    fn map_err(&self, e: Input) -> Self::Output;
}

#[derive(Clone, Debug)]
pub struct Layer<M>(M);

/// A service whose errors are mapped by `map_err`.
#[derive(Clone, Debug)]
pub struct Service<S, M> {
    pub inner: S,
    pub map_err: M,
}

impl<M> Layer<M> {
    /// The error mapping.
    pub closed spec fn mapping(&self) -> M {
        self.0
    }
}

pub fn layer<E, M: MapErr<E>>(map_err: M) -> (r: Layer<M>)
    ensures
        r.mapping() == map_err,
{
    Layer(map_err)
}

pub fn stack<T, S, M>(inner: S, map_err: M) -> (r: Service<S, M>)
    ensures
        r.inner == inner,
        r.map_err == map_err,
{
    Service { inner, map_err }
}

impl<T, S: super::Stack<T>, M: MapErr<S::Error> + Clone> super::Layer<T, T, S> for Layer<M> {
    type Stack = Service<S, M>;

    fn bind(&self, inner: S) -> (r: Service<S, M>)
        ensures
            r.inner == inner,
            cloned(self.mapping(), r.map_err),
    {
        stack::<T, S, M>(inner, self.0.clone())
    }
}

} // verus!
