//! Services made by a function.

use vstd::prelude::*;

verus! {

/// Makes a new service by calling `f`.
pub struct NewServiceFn<T> {
    f: T,
}

impl<T> NewServiceFn<T> {
    /// The function that makes services.
    pub closed spec fn maker(&self) -> T {
        self.f
    }

    pub fn new(f: T) -> (r: Self)
        ensures
            r.maker() == f,
    {
        NewServiceFn { f }
    }
}

impl<N, T: Fn() -> N> NewServiceFn<T> {
    /// A new service: what `f` returns.
    pub fn new_service(&self) -> (r: N)
        requires
            self.maker().requires(()),
        ensures
            self.maker().ensures((), r),
    {
        (self.f)()
    }
}

} // verus!
