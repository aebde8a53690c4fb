//! A layer that pins the target type of a service.

use std::marker::PhantomData;
use vstd::prelude::*;

verus! {

#[derive(Debug)]
pub struct Layer<T, M>(PhantomData<(T, M)>);

/// A service for `T`-typed targets over `inner`.
#[derive(Debug)]
pub struct Service<T, M> {
    pub inner: M,
    pub _p: PhantomData<T>,
}

impl<T, M> Clone for Layer<T, M> {
    fn clone(&self) -> (r: Self) {
        Layer(PhantomData)
    }
}

impl<T, M: Clone> Clone for Service<T, M> {
    fn clone(&self) -> (r: Self)
        ensures
            cloned(self.inner, r.inner),
    {
        Service { inner: self.inner.clone(), _p: PhantomData }
    }
}

pub fn layer<T, M>() -> (r: Layer<T, M>) {
    Layer(PhantomData)
}

impl<T, M> super::Layer<T, T, M> for Layer<T, M> {
    type Stack = Service<T, M>;

    fn bind(&self, inner: M) -> (r: Service<T, M>)
        ensures
            r.inner == inner,
    {
        Service { inner, _p: PhantomData }
    }
}

} // verus!
