//! Stacks that include a layer only for the targets a predicate selects.

use vstd::prelude::*;

use super::Either;

verus! {

/// Produces `Stack`s that include an `L`-typed layer only when a `P`-typed
/// `Predicate` evaluates to `true` for the stack's target.
#[derive(Clone)]
pub struct Layer<P, L> {
    predicate: P,
    inner: L,
}

/// A condition that determines whether a layer should be applied for a
/// `T`-typed target.
pub trait Predicate<T> {
    /// Returns true iff a conditional layer should be applied for this target.
    fn affirm(&self, target: &T) -> bool;
}

/// When the `P`-typed predicate applies to a target, the `L` layer is applied
/// over the `N` stack; otherwise `N` alone makes the value.
#[derive(Clone)]
pub struct Stack<P, N, L> {
    predicate: P,
    next: N,
    layer: L,
}

impl<P, L> Layer<P, L> {
    pub closed spec fn predicate(&self) -> P {
        self.predicate
    }

    pub closed spec fn inner(&self) -> L {
        self.inner
    }

    pub fn new(predicate: P, inner: L) -> (r: Self)
        ensures
            r.predicate() == predicate,
            r.inner() == inner,
    {
        Self { predicate, inner }
    }
}

impl<P, N, L> Stack<P, N, L> {
    pub closed spec fn predicate(&self) -> P {
        self.predicate
    }

    pub closed spec fn next(&self) -> N {
        self.next
    }

    pub closed spec fn layer(&self) -> L {
        self.layer
    }
}

impl<T, P: Predicate<T> + Clone, N, L: Clone> super::Layer<T, T, N> for Layer<P, L> {
    type Stack = Stack<P, N, L>;

    fn bind(&self, next: N) -> (r: Stack<P, N, L>)
        ensures
            r.next() == next,
            cloned(self.predicate(), r.predicate()),
            cloned(self.inner(), r.layer()),
    {
        Stack { predicate: self.predicate.clone(), next, layer: self.inner.clone() }
    }
}

/// A stack's result tagged `A`, its error as it is.
pub open spec fn tagged_a<A, B, E>(made: Result<A, E>) -> Result<Either<A, B>, E> {
    match made {
        Ok(v) => Ok(Either::A(v)),
        Err(e) => Err(e),
    }
}

/// A stack's result tagged `B`, its error as it is.
pub open spec fn tagged_b<A, B, E>(made: Result<B, E>) -> Result<Either<A, B>, E> {
    match made {
        Ok(v) => Ok(Either::B(v)),
        Err(e) => Err(e),
    }
}

/// What `next` alone made, tagged `A`; its error as it is.
pub fn without_layer<A, B, E>(made: Result<A, E>) -> (r: Result<Either<A, B>, E>)
    ensures
        match made {
            Ok(v) => r == Ok::<Either<A, B>, E>(Either::A(v)),
            Err(e) => r == Err::<Either<A, B>, E>(e),
        },
        r == tagged_a::<A, B, E>(made),
{
    match made {
        Ok(v) => Ok(Either::A(v)),
        Err(e) => Err(e),
    }
}

/// What the layer over `next` made, tagged `B`; its error as it is.
pub fn with_layer<A, B, E>(made: Result<B, E>) -> (r: Result<Either<A, B>, E>)
    ensures
        match made {
            Ok(v) => r == Ok::<Either<A, B>, E>(Either::B(v)),
            Err(e) => r == Err::<Either<A, B>, E>(e),
        },
        r == tagged_b::<A, B, E>(made),
{
    match made {
        Ok(v) => Ok(Either::B(v)),
        Err(e) => Err(e),
    }
}

impl<P, N, L> Stack<P, N, L> {
    /// `r` is what the stack makes for `target` when the predicate's answer is
    /// `affirmed`: what `next` makes, tagged `A`, when it is not; what the
    /// layer bound over a clone of `next` makes, tagged `B`, when it is. An
    /// error is the chosen stack's own.
    pub open spec fn makes<T>(
        self,
        affirmed: bool,
        target: &T,
        r: Result<Either<N::Value, <L::Stack as super::Stack<T>>::Value>, N::Error>,
    ) -> bool where
        N: super::Stack<T> + Clone,
        L: super::Layer<T, T, N>,
        L::Stack: super::Stack<T, Error = N::Error>,
     {
        if !affirmed {
            exists|m: Result<N::Value, N::Error>|
                #![trigger call_ensures(<N as super::Stack<T>>::make, (&self.next(), target), m)]
                call_ensures(<N as super::Stack<T>>::make, (&self.next(), target), m) && r
                    == tagged_a::<_, <L::Stack as super::Stack<T>>::Value, _>(m)
        } else {
            exists|next: N, stack: L::Stack, m: Result<<L::Stack as super::Stack<T>>::Value, N::Error>|
                #![trigger cloned(self.next(), next), call_ensures(<L as super::Layer<T, T, N>>::bind, (&self.layer(), next), stack), call_ensures(<L::Stack as super::Stack<T>>::make, (&stack, target), m)]
                cloned(self.next(), next) && call_ensures(
                    <L as super::Layer<T, T, N>>::bind,
                    (&self.layer(), next),
                    stack,
                ) && call_ensures(<L::Stack as super::Stack<T>>::make, (&stack, target), m) && r
                    == tagged_b::<N::Value, _, _>(m)
        }
    }

    /// Makes the value for `target`, given the predicate's answer for it:
    /// with `next` alone (`A`) when it does not apply, and with the layer over
    /// a clone of `next` (`B`) when it does. Errors are the stacks'.
    pub fn make_with<T>(&self, affirmed: bool, target: &T) -> (r: Result<
        Either<N::Value, <L::Stack as super::Stack<T>>::Value>,
        N::Error,
    >) where
        N: super::Stack<T> + Clone,
        L: super::Layer<T, T, N>,
        L::Stack: super::Stack<T, Error = N::Error>,

        ensures
            self.makes(affirmed, target, r),
            r matches Ok(v) ==> ((v is A) <==> !affirmed),
    {
        if !affirmed {
            let made = self.next.make(target);
            assert(call_ensures(<N as super::Stack<T>>::make, (&self.next(), target), made));
            without_layer(made)
        } else {
            let next = self.next.clone();
            let stack = self.layer.bind(next);
            let made = <L::Stack as super::Stack<T>>::make(&stack, target);
            assert(cloned(self.next(), next));
            assert(call_ensures(<L as super::Layer<T, T, N>>::bind, (&self.layer(), next), stack));
            assert(call_ensures(<L::Stack as super::Stack<T>>::make, (&stack, target), made));
            with_layer(made)
        }
    }
}

impl<T, P, N, L> super::Stack<T> for Stack<P, N, L> where
    P: Predicate<T>,
    N: super::Stack<T> + Clone,
    L: super::Layer<T, T, N>,
    L::Stack: super::Stack<T, Error = N::Error>,
 {
    type Value = Either<N::Value, <L::Stack as super::Stack<T>>::Value>;

    type Error = N::Error;

    /// Makes the value with `next` alone when the predicate does not apply to
    /// the target, and with the layer over a clone of `next` when it does.
    fn make(&self, target: &T) -> (r: Result<Self::Value, Self::Error>)
        ensures
            exists|affirmed: bool|
                #![trigger call_ensures(<P as Predicate<T>>::affirm, (&self.predicate(), target), affirmed)]
                call_ensures(<P as Predicate<T>>::affirm, (&self.predicate(), target), affirmed)
                    && self.makes(affirmed, target, r),
    {
        let affirmed = self.predicate.affirm(target);
        self.make_with(affirmed, target)
    }
}

} // verus!
