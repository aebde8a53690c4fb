//! A "rotating" pair of values: one to read and one to write. Every period
//! the read value is discarded and replaced by the write value, and a fresh
//! value takes the write side, so that the read side always holds one full
//! period of writes (the previous one).

use std::time::Duration;
use vstd::prelude::*;

use crate::clock::{self, duration_nanos};

verus! {

/// Holds a value to read and a value to write, rotated every `period`.
///
/// Times are kept in nanoseconds after `epoch`, the clock reading taken when
/// the value was built.
pub struct Rotating<T, F> {
    read: T,
    write: T,
    new: F,
    epoch: std::time::Instant,
    last_rotation: u64,
    period: u64,
}

/// How many whole periods lie between the last rotation and `now` (none when
/// `now` is not later).
pub open spec fn rotations_due(last_rotation: int, period: int, now: int) -> int {
    if now <= last_rotation {
        0
    } else {
        (now - last_rotation) / period
    }
}

/// Converts a duration to whole nanoseconds, or `None` when that number does
/// not fit in a `u64`.
pub fn checked_duration_as_nanos(d: &Duration) -> (r: Option<u64>)
    ensures
        r.is_some() <==> duration_nanos(*d) <= u64::MAX,
        r matches Some(n) ==> n == duration_nanos(*d),
{
    let secs = clock::duration_as_secs(d);
    let nanos = clock::duration_subsec_nanos(d);
    if secs > (u64::MAX - (nanos as u64)) / 1_000_000_000 {
        assert(secs * 1_000_000_000 + nanos > u64::MAX) by (nonlinear_arith)
            requires
                secs > (u64::MAX - (nanos as u64)) / 1_000_000_000,
                nanos < 1_000_000_000,
        ;
        None
    } else {
        assert(secs * 1_000_000_000 + nanos <= u64::MAX) by (nonlinear_arith)
            requires
                secs <= (u64::MAX - (nanos as u64)) / 1_000_000_000,
                nanos < 1_000_000_000,
        ;
        Some(secs * 1_000_000_000 + (nanos as u64))
    }
}

impl<T, F: Fn() -> T> Rotating<T, F> {
    /// The value on the read side.
    pub closed spec fn reader(&self) -> T {
        self.read
    }

    /// The value on the write side.
    pub closed spec fn writer(&self) -> T {
        self.write
    }

    /// The function that makes fresh values.
    pub closed spec fn factory(&self) -> F {
        self.new
    }

    /// The clock reading that times are measured from.
    pub closed spec fn epoch(&self) -> std::time::Instant {
        self.epoch
    }

    /// Nanoseconds after the epoch at which the last rotation is due.
    pub closed spec fn last_rotation(&self) -> nat {
        self.last_rotation as nat
    }

    /// The rotation period in nanoseconds.
    pub closed spec fn period(&self) -> nat {
        self.period as nat
    }

    /// The factory can always be called.
    pub open spec fn wf(&self) -> bool {
        self.factory().requires(())
    }

    /// `next` is `self` after the rotations that a read or write at `now`
    /// (nanoseconds after the epoch) performs.
    pub open spec fn rotated_to(self, next: Self, now: u64) -> bool {
        let k = rotations_due(self.last_rotation() as int, self.period() as int, now as int);
        &&& next.factory() == self.factory()
        &&& next.epoch() == self.epoch()
        &&& next.period() == self.period()
        &&& next.last_rotation() == self.last_rotation() + self.period() * k
        &&& k == 0 ==> next.reader() == self.reader() && next.writer() == self.writer()
        &&& k == 1 ==> next.reader() == self.writer() && self.factory().ensures((), next.writer())
        &&& k >= 2 ==> self.factory().ensures((), next.reader()) && self.factory().ensures(
            (),
            next.writer(),
        )
    }

    /// Builds a rotating pair whose both sides are fresh values, rotated every
    /// `period`, counting from now.
    pub fn new(period: Duration, new: F) -> (r: Self)
        requires
            new.requires(()),
            duration_nanos(period) <= u64::MAX,
        ensures
            r.wf(),
            r.factory() == new,
            r.period() == duration_nanos(period),
            r.last_rotation() == 0,
            new.ensures((), r.reader()),
            new.ensures((), r.writer()),
    {
        let read = new();
        let write = new();
        let epoch = clock::now();
        let period = Self::duration_as_nanos(&period);
        Rotating { read, write, new, epoch, last_rotation: 0, period }
    }

    /// Builds a rotating pair as `new` does, or `None` when the period in
    /// nanoseconds does not fit in a `u64`.
    pub fn try_new(period: Duration, new: F) -> (r: Option<Self>)
        requires
            new.requires(()),
        ensures
            r is Some <==> duration_nanos(period) <= u64::MAX,
            r matches Some(r) ==> {
                &&& r.wf()
                &&& r.factory() == new
                &&& r.period() == duration_nanos(period)
                &&& r.last_rotation() == 0
                &&& new.ensures((), r.reader())
                &&& new.ensures((), r.writer())
            },
    {
        match checked_duration_as_nanos(&period) {
            Some(_) => Some(Self::new(period, new)),
            None => None,
        }
    }

    /// Converts a duration to whole nanoseconds, `secs * 10^9 + subsec_nanos`.
    /// The product overflows for durations of more than about 584 years; those
    /// are left out.
    pub fn duration_as_nanos(d: &Duration) -> (r: u64)
        requires
            duration_nanos(*d) <= u64::MAX,
        ensures
            r == duration_nanos(*d),
    {
        let secs = clock::duration_as_secs(d);
        let nanos = clock::duration_subsec_nanos(d);
        secs * 1_000_000_000 + (nanos as u64)
    }

    /// Rotates once: the write side moves to the read side and a fresh value
    /// takes the write side.
    fn rotate(&mut self)
        requires
            old(self).wf(),
        ensures
            final(self).reader() == old(self).writer(),
            old(self).factory().ensures((), final(self).writer()),
            final(self).factory() == old(self).factory(),
            final(self).epoch() == old(self).epoch(),
            final(self).period() == old(self).period(),
            final(self).last_rotation() == old(self).last_rotation(),
    {
        let mut fresh = (self.new)();
        std::mem::swap(&mut self.write, &mut fresh);
        self.read = fresh;
    }

    /// Replaces both sides with fresh values.
    fn clear(&mut self)
        requires
            old(self).wf(),
        ensures
            old(self).factory().ensures((), final(self).reader()),
            old(self).factory().ensures((), final(self).writer()),
            final(self).factory() == old(self).factory(),
            final(self).epoch() == old(self).epoch(),
            final(self).period() == old(self).period(),
            final(self).last_rotation() == old(self).last_rotation(),
    {
        self.read = (self.new)();
        self.write = (self.new)();
    }

    /// Performs the rotations due at `now` (nanoseconds after the epoch): none
    /// within a period of the last rotation, one after a whole period, and a
    /// clear after two or more; the last rotation then advances by that many
    /// whole periods.
    pub fn maybe_rotate_at(&mut self, now: u64)
        requires
            old(self).wf(),
            old(self).period() > 0,
        ensures
            old(self).rotated_to(*final(self), now),
    {
        let delta: u64 = if now > self.last_rotation {
            now - self.last_rotation
        } else {
            0
        };
        let whole: u64 = delta / self.period;
        if whole >= 2 {
            self.clear();
        } else if whole == 1 {
            self.rotate();
        }
        let period = self.period;
        let last = self.last_rotation;
        assert(period * whole <= delta) by (nonlinear_arith)
            requires
                period > 0,
                whole == delta / period,
        ;
        assert(last + period * whole <= u64::MAX) by {
            if now > last {
                assert(delta == now - last);
            } else {
                assert(delta == 0);
            }
        }
        self.last_rotation = last + period * whole;
    }

    /// The read side after the rotations due at `now`.
    pub fn read_at(&mut self, now: u64) -> (r: &T)
        requires
            old(self).wf(),
            old(self).period() > 0,
        ensures
            old(self).rotated_to(*final(self), now),
            *r == final(self).reader(),
    {
        self.maybe_rotate_at(now);
        &self.read
    }

    /// The write side after the rotations due at `now`.
    pub fn write_at(&mut self, now: u64) -> (w: &mut T)
        requires
            old(self).wf(),
            old(self).period() > 0,
        ensures
            exists|next: Self|
                {
                    &&& old(self).rotated_to(next, now)
                    &&& *w == next.writer()
                    &&& final(self).reader() == next.reader()
                    &&& final(self).factory() == next.factory()
                    &&& final(self).epoch() == next.epoch()
                    &&& final(self).period() == next.period()
                    &&& final(self).last_rotation() == next.last_rotation()
                },
            final(self).writer() == *final(w),
    {
        self.maybe_rotate_at(now);
        &mut self.write
    }

    /// The rotation period in nanoseconds.
    pub fn period_nanos(&self) -> (r: u64)
        ensures
            r == self.period(),
    {
        self.period
    }

    /// Nanoseconds from the epoch to the clock's current reading (saturating);
    /// which reading that is depends on the moment of the call.
    fn elapsed(&self) -> (r: u64)
        ensures
            exists|now: std::time::Instant| r == clock::saturating_nanos(now, self.epoch()),
    {
        let now = clock::now();
        let r = clock::nanos_between(now, self.epoch);
        assert(r == clock::saturating_nanos(now, self.epoch()));
        r
    }

    /// The read side, after the rotations due now: those of `read_at` at the
    /// time from the epoch to the clock's reading (saturating). Which reading
    /// that is depends on the moment of the call.
    pub fn read(&mut self) -> (r: &T)
        requires
            old(self).wf(),
            old(self).period() > 0,
        ensures
            exists|now: std::time::Instant|
                old(self).rotated_to(
                    *final(self),
                    #[trigger] clock::saturating_nanos(now, old(self).epoch()),
                ),
            *r == final(self).reader(),
    {
        let now = self.elapsed();
        self.read_at(now)
    }

    /// The write side, after the rotations due now: those of `write_at` at
    /// the time from the epoch to the clock's reading (saturating). Which
    /// reading that is depends on the moment of the call.
    pub fn write(&mut self) -> (w: &mut T)
        requires
            old(self).wf(),
            old(self).period() > 0,
        ensures
            exists|now: std::time::Instant, next: Self|
                {
                    &&& old(self).rotated_to(next, clock::saturating_nanos(now, old(self).epoch()))
                    &&& *w == next.writer()
                    &&& final(self).reader() == next.reader()
                    &&& final(self).factory() == next.factory()
                    &&& final(self).epoch() == next.epoch()
                    &&& final(self).period() == next.period()
                    &&& final(self).last_rotation() == next.last_rotation()
                },
            final(self).writer() == *final(w),
    {
        let now = self.elapsed();
        self.write_at(now)
    }
}

/// After the rotations due at `now`, the read side holds the writes of the
/// previous period and the write side those since the last rotation, which
/// lies less than one period before `now` (when `now` is not before the last
/// rotation).
pub proof fn lemma_rotation_keeps_one_period<T, F: Fn() -> T>(
    s: Rotating<T, F>,
    next: Rotating<T, F>,
    now: u64,
)
    requires
        s.rotated_to(next, now),
        s.period() > 0,
        s.last_rotation() <= now,
    ensures
        next.last_rotation() <= now < next.last_rotation() + s.period(),
        rotations_due(s.last_rotation() as int, s.period() as int, now as int) == 1 ==> next.reader()
            == s.writer(),
        now - s.last_rotation() >= 2 * s.period() ==> s.factory().ensures((), next.reader())
            && s.factory().ensures((), next.writer()),
        now - s.last_rotation() < s.period() ==> next.reader() == s.reader() && next.writer()
            == s.writer() && next.last_rotation() == s.last_rotation(),
{
    let d: int = now - s.last_rotation();
    let p: int = s.period() as int;
    vstd::arithmetic::div_mod::lemma_fundamental_div_mod(d, p);
    if d > 0 {
        assert(rotations_due(s.last_rotation() as int, p, now as int) == d / p);
    }
    assert(0 <= d % p < p) by {
        vstd::arithmetic::div_mod::lemma_mod_pos_bound(d, p);
    }
    assert(d / p >= 0) by {
        vstd::arithmetic::div_mod::lemma_div_pos_is_pos(d, p);
    }
    if d >= 2 * p {
        assert(d / p >= 2) by (nonlinear_arith)
            requires
                d >= 2 * p,
                p > 0,
                d == p * (d / p) + d % p,
                0 <= d % p < p,
        ;
    }
    if d < p {
        assert(d / p == 0) by (nonlinear_arith)
            requires
                0 <= d < p,
                d == p * (d / p) + d % p,
                0 <= d % p < p,
        ;
    }
}

} // verus!
