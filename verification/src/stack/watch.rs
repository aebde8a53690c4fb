//! Targets that follow a watched value: when the value changes, the service
//! is made again for the updated target.

use vstd::prelude::*;

use super::make::{make_next, MakeAction, MakeEvent, MakeState};

verus! {

/// Implemented by targets that can be updated by a watched `U`.
pub trait WithUpdate<U> {
    type Updated;

    fn with_update(self, update: &U) -> Self::Updated;
}

/// A special implementation of `WithUpdate` that clones the observed update
/// value.
#[derive(Clone, Debug)]
pub struct CloneUpdate;

impl<U: Clone> WithUpdate<U> for CloneUpdate {
    type Updated = U;

    fn with_update(self, update: &U) -> (r: U)
        ensures
            cloned(*update, r),
    {
        update.clone()
    }
}

#[derive(Debug)]
pub enum Error<I, M> {
    Stack(M),
    Inner(I),
}

/// Takes a change of the watched value: whatever was made is discarded, and
/// a service is to be made for the updated target.
pub fn after_update(state: &mut MakeState)
    ensures
        *final(state) == MakeState::Init,
{
    *state = MakeState::Init;
}

/// The state of a clone: a pending target is cloned, a service being made is
/// made again from the current watched value, and a made service is cloned.
pub fn clone_state(s: MakeState) -> (r: MakeState)
    ensures
        s == MakeState::Ready ==> r == MakeState::Ready,
        s != MakeState::Ready ==> r == MakeState::Init,
{
    match s {
        MakeState::Ready => MakeState::Ready,
        _ => MakeState::Init,
    }
}

/// A service that follows a watched value: its target, the updated target
/// still to be handed to the stack, and where making the service is.
pub struct WatchState<T, V> {
    target: T,
    pending: Option<V>,
    state: MakeState,
}

/// A step of a watching service: where it goes, what to do, and the updated
/// target handed to the stack (when the action is to call it).
pub open spec fn watch_next<V>(state: MakeState, pending: Option<V>, e: MakeEvent) -> (
    MakeState,
    MakeAction,
    Option<V>,
) {
    let (n, a) = make_next(state, e);
    if a == MakeAction::CallStack {
        (n, a, pending)
    } else {
        (n, a, None)
    }
}

impl<T, V> WatchState<T, V> {
    /// The target that each watched value updates.
    pub closed spec fn target(&self) -> T {
        self.target
    }

    /// The target that each watched value updates.
    pub fn target_ref(&self) -> (r: &T)
        ensures
            *r == self.target(),
    {
        &self.target
    }

    /// The updated target not yet handed to the stack.
    pub closed spec fn pending(&self) -> Option<V> {
        self.pending
    }

    /// Where making the service is.
    pub closed spec fn state(&self) -> MakeState {
        self.state
    }

    /// An updated target is held exactly while the stack is still to be
    /// called.
    pub open spec fn wf(&self) -> bool {
        (self.state() == MakeState::Init) == (self.pending() is Some)
    }

    /// A service for `target`, to be made from `updated`, the target updated
    /// with the watched value.
    pub fn new(target: T, updated: V) -> (r: Self)
        ensures
            r.target() == target,
            r.pending() == Some(updated),
            r.state() == MakeState::Init,
            r.wf(),
    {
        WatchState { target, pending: Some(updated), state: MakeState::new() }
    }

    /// A service for `target`, to be made from a clone of `target` updated
    /// with the watched `value`.
    pub fn new_from<U>(target: T, value: &U) -> (r: Self) where T: WithUpdate<U, Updated = V> + Clone
        ensures
            r.target() == target,
            r.state() == MakeState::Init,
            r.wf(),
            exists|t: T|
                #![trigger cloned(target, t)]
                cloned(target, t) && (r.pending() matches Some(v) && call_ensures(
                    <T as WithUpdate<U>>::with_update,
                    (t, value),
                    v,
                )),
    {
        let t = target.clone();
        let v = t.with_update(value);
        proof {
            assert(cloned(target, t));
        }
        Self::new(target, v)
    }

    /// The watched value changed: whatever was made is discarded, and the
    /// service is to be made from `updated`.
    pub fn update(&mut self, updated: V)
        ensures
            final(self).target() == old(self).target(),
            final(self).pending() == Some(updated),
            final(self).state() == MakeState::Init,
            final(self).wf(),
    {
        after_update(&mut self.state);
        self.pending = Some(updated);
    }

    /// The watched value changed to `value`: the service is to be made from
    /// a clone of the target updated with it.
    pub fn update_from<U>(&mut self, value: &U) where T: WithUpdate<U, Updated = V> + Clone
        ensures
            final(self).target() == old(self).target(),
            final(self).state() == MakeState::Init,
            final(self).wf(),
            exists|t: T|
                #![trigger cloned(old(self).target(), t)]
                cloned(old(self).target(), t) && (final(self).pending() matches Some(v)
                    && call_ensures(<T as WithUpdate<U>>::with_update, (t, value), v)),
    {
        let t = self.target.clone();
        let v = t.with_update(value);
        proof {
            assert(cloned(self.target(), t));
        }
        self.update(v);
    }

    /// Takes one step of `poll_ready`; when the stack is to be called, the
    /// updated target to call it with comes out.
    pub fn step(&mut self, e: MakeEvent) -> (r: (MakeAction, Option<V>))
        requires
            old(self).wf(),
        ensures
            (final(self).state(), r.0, r.1) == watch_next(old(self).state(), old(self).pending(), e),
            r.0 == MakeAction::CallStack ==> r.1 is Some && final(self).pending() is None,
            r.0 != MakeAction::CallStack ==> final(self).pending() == old(self).pending(),
            final(self).target() == old(self).target(),
            final(self).wf(),
    {
        let a = self.state.step(e);
        match a {
            MakeAction::CallStack => {
                let handed = self.pending.take();
                (a, handed)
            },
            _ => (a, None),
        }
    }

    /// A clone, given the target updated with the current watched value: a
    /// pending target is cloned, a service being made is made again from the
    /// current value, and a made service stays made (its service is cloned by
    /// the caller).
    pub fn clone_with(&self, current: V) -> (r: Self) where T: Clone, V: Clone
        requires
            self.wf(),
        ensures
            cloned(self.target(), r.target()),
            self.state() == MakeState::Ready ==> r.state() == MakeState::Ready,
            self.state() != MakeState::Ready ==> r.state() == MakeState::Init,
            self.state() == MakeState::Init ==> (r.pending() is Some && cloned(
                self.pending().unwrap(),
                r.pending().unwrap(),
            )),
            self.state() == MakeState::Making ==> r.pending() == Some(current),
            self.state() == MakeState::Ready ==> r.pending() is None,
            r.wf(),
    {
        let target = self.target.clone();
        let state = clone_state(self.state);
        let pending = match self.state {
            MakeState::Init => match &self.pending {
                Some(p) => Some(p.clone()),
                None => None,
            },
            MakeState::Making => Some(current),
            MakeState::Ready => None,
        };
        WatchState { target, pending, state }
    }

    /// Whether a request can be served: the service is made.
    pub fn is_ready(&self) -> (r: bool)
        ensures
            r == (self.state() == MakeState::Ready),
    {
        self.state.is_ready()
    }
}

/// The first updated target that a run of steps hands to the stack, if any.
pub open spec fn first_handed<V>(state: MakeState, pending: Option<V>, events: Seq<MakeEvent>) -> Option<V>
    decreases events.len(),
{
    if events.len() == 0 {
        None
    } else {
        let (n, a, handed) = watch_next(state, pending, events[0]);
        if a == MakeAction::CallStack {
            handed
        } else {
            first_handed(n, pending, events.drop_first())
        }
    }
}

/// After the watched value changes to `updated`, the next service is made
/// from `updated`: whatever events follow, the first target handed to the
/// stack is `updated`.
pub proof fn lemma_made_from_latest<V>(updated: V, events: Seq<MakeEvent>)
    ensures
        first_handed(MakeState::Init, Some(updated), events) matches Some(t) ==> t == updated,
    decreases events.len(),
{
    if events.len() > 0 {
        let (n, a, handed) = watch_next(MakeState::Init, Some(updated), events[0]);
        if a != MakeAction::CallStack {
            assert(n == MakeState::Init);
            lemma_made_from_latest(updated, events.drop_first());
        }
    }
}

} // verus!
