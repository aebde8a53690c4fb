//! Two alternate layers, stacks or services.

use vstd::prelude::*;

use super::Layer;

verus! {

/// Describes two alternate `Layer`s, `Stack`s or `Service`s.
#[derive(Clone, Debug, PartialEq, Eq)]
pub enum Either<A, B> {
    A(A),
    B(B),
}

impl<T, U, N, A: Layer<T, U, N>, B: Layer<T, U, N>> Layer<T, U, N> for Either<A, B> {
    type Stack = Either<A::Stack, B::Stack>;

    /// Binds whichever layer this is over `next`, and tags the stack alike.
    fn bind(&self, next: N) -> (r: Either<A::Stack, B::Stack>)
        ensures
            self matches Either::A(a) ==> exists|s: A::Stack|
                #![trigger call_ensures(<A as Layer<T, U, N>>::bind, (&a, next), s)]
                call_ensures(<A as Layer<T, U, N>>::bind, (&a, next), s) && r == Either::<
                    A::Stack,
                    B::Stack,
                >::A(s),
            self matches Either::B(b) ==> exists|s: B::Stack|
                #![trigger call_ensures(<B as Layer<T, U, N>>::bind, (&b, next), s)]
                call_ensures(<B as Layer<T, U, N>>::bind, (&b, next), s) && r == Either::<
                    A::Stack,
                    B::Stack,
                >::B(s),
    {
        match self {
            Either::A(a) => {
                let s = a.bind(next);
                assert(call_ensures(<A as Layer<T, U, N>>::bind, (a, next), s));
                Either::A(s)
            },
            Either::B(b) => {
                let s = b.bind(next);
                assert(call_ensures(<B as Layer<T, U, N>>::bind, (b, next), s));
                Either::B(s)
            },
        }
    }
}

} // verus!
