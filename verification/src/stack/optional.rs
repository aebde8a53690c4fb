//! An optional layer: `None` leaves the stack as it is.

use vstd::prelude::*;

use super::Either;

verus! {

impl<T, N, L: super::Layer<T, T, N>> super::Layer<T, T, N> for Option<L> {
    type Stack = Either<N, L::Stack>;

    /// Without a layer, `next` itself (`A`); with one, what the layer binds
    /// over `next` (`B`).
    fn bind(&self, next: N) -> (r: Either<N, L::Stack>)
        ensures
            self is None ==> r == Either::<N, L::Stack>::A(next),
            self matches Some(m) ==> exists|b: L::Stack|
                #![trigger call_ensures(<L as super::Layer<T, T, N>>::bind, (&m, next), b)]
                call_ensures(<L as super::Layer<T, T, N>>::bind, (&m, next), b) && r == Either::<
                    N,
                    L::Stack,
                >::B(b),
    {
        match self {
            None => Either::A(next),
            Some(m) => {
                let b = m.bind(next);
                assert(call_ensures(<L as super::Layer<T, T, N>>::bind, (m, next), b));
                Either::B(b)
            },
        }
    }
}

} // verus!
