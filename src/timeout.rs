//! The reusable, drift-compensated timeout. A timeout holds a target tick
//! count, fixed when it is made, and an accumulator of elapsed ticks. Each poll
//! adds the ticks since the previous sample (saturating); when the accumulator
//! reaches the target the poll fires and the target is taken off, so leftover
//! ticks count toward the next period.
use vstd::prelude::*;
use crate::convert::{ms_ticks, ms_to_ticks, ns_ticks, ns_to_ticks, us_ticks, us_to_ticks};
use crate::instant::TickInstant;

verus! {

/// An unsigned counter that a number of ticks can be added to, saturating at
/// its largest value.
pub trait Num: Sized + Copy {
    /// The value, as an integer.
    spec fn as_int(self) -> int;

    /// The largest value of the type.
    spec fn max_int() -> int;

    /// The zero of the type.
    const ZERO: Self;

    /// `self + v`, or the largest value where the sum does not fit.
    fn add_u32(self, v: u32) -> (r: Self)
        ensures
            r.as_int() == if self.as_int() + v > Self::max_int() {
                Self::max_int()
            } else {
                self.as_int() + v
            },
    ;
}

impl Num for u32 {
    open spec fn as_int(self) -> int {
        self as int
    }

    open spec fn max_int() -> int {
        u32::MAX as int
    }

    const ZERO: Self = 0;

    fn add_u32(self, v: u32) -> (r: Self) {
        self.saturating_add(v)
    }
}

impl Num for u64 {
    open spec fn as_int(self) -> int {
        self as int
    }

    open spec fn max_int() -> int {
        u64::MAX as int
    }

    const ZERO: Self = 0;

    fn add_u32(self, v: u32) -> (r: Self) {
        self.saturating_add(v as u64)
    }
}

/// `a + b`, or `u32::MAX` where the sum does not fit.
pub open spec fn saturating_sum(a: u32, b: u32) -> u32 {
    if a + b > u32::MAX {
        u32::MAX
    } else {
        (a + b) as u32
    }
}

/// Whether a poll that adds `delta` ticks to `elapsed` fires for `target`.
pub open spec fn fires(elapsed: u32, target: u32, delta: u32) -> bool {
    saturating_sum(elapsed, delta) >= target
}

/// The accumulator after a poll that adds `delta` ticks to `elapsed`: on a
/// fire the target is taken off and the rest is kept.
pub open spec fn elapsed_after(elapsed: u32, target: u32, delta: u32) -> u32 {
    let e = saturating_sum(elapsed, delta);
    if e >= target {
        (e - target) as u32
    } else {
        e
    }
}

/// A countdown of a fixed number of ticks that can be polled at any cadence
/// and fires once for each time the target is reached.
pub struct TickTimeout<T: TickInstant> {
    tick: T,
    timeout_tick: u32,
    elapsed_tick: u32,
}

impl<T: TickInstant> TickTimeout<T> {
    /// The number of ticks after which a poll fires; fixed at creation.
    pub closed spec fn target(self) -> u32 {
        self.timeout_tick
    }

    /// Ticks accumulated since the last fire or restart.
    pub closed spec fn elapsed(self) -> u32 {
        self.elapsed_tick
    }

    /// The sample that the next poll measures from.
    pub closed spec fn last(self) -> T {
        self.tick
    }

    /// A timeout of `target` ticks, measured from the sample `now`.
    pub fn with_target(target: u32, now: T) -> (r: Self)
        ensures
            r.target() == target,
            r.elapsed() == 0,
            r.last() == now,
    {
        TickTimeout { tick: now, timeout_tick: target, elapsed_tick: 0 }
    }

    /// A timeout of `ns` nanoseconds at `frequency` ticks per second, started
    /// now. The tick count must fit in 32 bits.
    pub fn new_ns(frequency: u32, ns: u32) -> (r: Self)
        requires
            ns_ticks(frequency, ns) <= u32::MAX,
        ensures
            r.target() == ns_ticks(frequency, ns),
            r.elapsed() == 0,
    {
        Self::with_target(ns_to_ticks(frequency, ns).unwrap(), T::now())
    }

    /// A timeout of `us` microseconds at `frequency` ticks per second, started
    /// now. The tick count must fit in 32 bits.
    pub fn new_us(frequency: u32, us: u32) -> (r: Self)
        requires
            us_ticks(frequency, us) <= u32::MAX,
        ensures
            r.target() == us_ticks(frequency, us),
            r.elapsed() == 0,
    {
        Self::with_target(us_to_ticks(frequency, us).unwrap(), T::now())
    }

    /// A timeout of `ms` milliseconds at `frequency` ticks per second, started
    /// now. The tick count must fit in 32 bits.
    pub fn new_ms(frequency: u32, ms: u32) -> (r: Self)
        requires
            ms_ticks(frequency, ms) <= u32::MAX,
        ensures
            r.target() == ms_ticks(frequency, ms),
            r.elapsed() == 0,
    {
        Self::with_target(ms_to_ticks(frequency, ms).unwrap(), T::now())
    }

    /// The number of ticks after which a poll fires.
    pub fn target_ticks(&self) -> (r: u32)
        ensures
            r == self.target(),
    {
        self.timeout_tick
    }

    /// Ticks accumulated since the last fire or restart.
    pub fn elapsed_ticks(&self) -> (r: u32)
        ensures
            r == self.elapsed(),
    {
        self.elapsed_tick
    }

    /// Ticks still to go before the next fire, as of the last poll.
    pub fn ticks_left(&self) -> (r: u32)
        ensures
            r == if self.elapsed() >= self.target() {
                0
            } else {
                self.target() - self.elapsed()
            },
    {
        if self.elapsed_tick >= self.timeout_tick {
            0
        } else {
            self.timeout_tick - self.elapsed_tick
        }
    }

    /// One step of the countdown: `delta` ticks have passed up to the sample
    /// `now`. Fires when the accumulator reaches the target, and then keeps
    /// what is left over.
    pub fn advance(&mut self, now: T, delta: u32) -> (fired: bool)
        ensures
            fired == fires(old(self).elapsed(), old(self).target(), delta),
            final(self).elapsed() == elapsed_after(old(self).elapsed(), old(self).target(), delta),
            final(self).target() == old(self).target(),
            final(self).last() == now,
    {
        self.elapsed_tick = self.elapsed_tick.add_u32(delta);
        self.tick = now;
        if self.elapsed_tick >= self.timeout_tick {
            self.elapsed_tick = self.elapsed_tick - self.timeout_tick;
            true
        } else {
            false
        }
    }

    /// Polls with the sample `now`: adds the ticks that the clock counts
    /// from the last sample to `now`.
    pub fn poll_at(&mut self, now: T) -> (fired: bool)
        ensures
            fired == fires(old(self).elapsed(), old(self).target(), now.distance(old(self).last())),
            final(self).elapsed() == elapsed_after(
                old(self).elapsed(),
                old(self).target(),
                now.distance(old(self).last()),
            ),
            final(self).target() == old(self).target(),
            final(self).last() == now,
    {
        let delta = now.tick_since(self.tick);
        self.advance(now, delta)
    }

    /// Polls with a fresh sample of the clock. Can be called again after it
    /// fires, without a restart: it then counts the next period.
    pub fn timeout(&mut self) -> (fired: bool)
        ensures
            exists|now: T|
                {
                    &&& final(self).last() == now
                    &&& fired == fires(
                        old(self).elapsed(),
                        old(self).target(),
                        now.distance(old(self).last()),
                    )
                    &&& final(self).elapsed() == elapsed_after(
                        old(self).elapsed(),
                        old(self).target(),
                        now.distance(old(self).last()),
                    )
                },
            final(self).target() == old(self).target(),
    {
        self.poll_at(T::now())
    }

    /// Starts over from the sample `now`, dropping any leftover ticks.
    pub fn restart_at(&mut self, now: T)
        ensures
            final(self).elapsed() == 0,
            final(self).target() == old(self).target(),
            final(self).last() == now,
    {
        self.tick = now;
        self.elapsed_tick = 0;
    }

    /// Starts over from a fresh sample of the clock, dropping any leftover
    /// ticks.
    pub fn restart(&mut self)
        ensures
            final(self).elapsed() == 0,
            final(self).target() == old(self).target(),
    {
        self.restart_at(T::now());
    }
}

/// No drift: while the accumulator does not saturate, a poll loses no ticks.
/// The ticks before the poll plus those it adds equal the ticks after it, plus
/// the target if it fired. Over any run of polls the fires times the target,
/// plus what is left, is the time that passed.
pub proof fn lemma_poll_keeps_ticks(elapsed: u32, target: u32, delta: u32)
    requires
        elapsed + delta <= u32::MAX,
    ensures
        elapsed + delta == elapsed_after(elapsed, target, delta) + if fires(elapsed, target, delta) {
            target as int
        } else {
            0
        },
{
}

/// A fire leaves the excess over the target in the accumulator, not zero.
pub proof fn lemma_fire_keeps_leftover(elapsed: u32, target: u32, delta: u32)
    requires
        elapsed + delta <= u32::MAX,
        fires(elapsed, target, delta),
    ensures
        elapsed_after(elapsed, target, delta) == elapsed + delta - target,
{
}

/// After a restart, a poll that finds fewer ticks than the target passed does
/// not fire, however close to firing the countdown was before the restart, and
/// the accumulator holds just those ticks. At the same sample no tick passed.
pub proof fn lemma_restart_then_poll(target: u32, delta: u32)
    requires
        delta < target,
    ensures
        !fires(0, target, delta),
        elapsed_after(0, target, delta) == delta,
{
}

/// Ticks never go missing under irregular polling: the accumulator only grows
/// between fires, saturating rather than wrapping, and stays under the target
/// after a poll that does not fire.
pub proof fn lemma_accumulator_grows(elapsed: u32, target: u32, delta: u32)
    requires
        !fires(elapsed, target, delta),
    ensures
        elapsed_after(elapsed, target, delta) >= elapsed,
        elapsed_after(elapsed, target, delta) < target,
{
}

/// The sum of a run of tick counts.
pub open spec fn total_ticks(deltas: Seq<u32>) -> nat
    decreases deltas.len(),
{
    if deltas.len() == 0 {
        0
    } else {
        total_ticks(deltas.drop_last()) + deltas.last() as nat
    }
}

/// The accumulator, and the number of fires, after polls that add each of
/// `deltas` in turn to `elapsed`.
pub open spec fn run_polls(elapsed: u32, target: u32, deltas: Seq<u32>) -> (u32, nat)
    decreases deltas.len(),
{
    if deltas.len() == 0 {
        (elapsed, 0)
    } else {
        let before = run_polls(elapsed, target, deltas.drop_last());
        let d = deltas.last();
        (
            elapsed_after(before.0, target, d),
            before.1 + if fires(before.0, target, d) {
                1nat
            } else {
                0nat
            },
        )
    }
}

/// No drift over a run of polls: while the accumulator does not saturate, the
/// fires times the target, plus what is left, is all the time that passed.
/// The average period over many fires is thus the target.
pub proof fn lemma_polls_keep_ticks(elapsed: u32, target: u32, deltas: Seq<u32>)
    requires
        elapsed + total_ticks(deltas) <= u32::MAX,
    ensures
        run_polls(elapsed, target, deltas).0 + target * run_polls(elapsed, target, deltas).1
            == elapsed + total_ticks(deltas),
    decreases deltas.len(),
{
    if deltas.len() > 0 {
        let prefix = deltas.drop_last();
        let d = deltas.last();
        lemma_polls_keep_ticks(elapsed, target, prefix);
        let before = run_polls(elapsed, target, prefix);
        assert(target * before.1 >= 0) by (nonlinear_arith);
        lemma_poll_keeps_ticks(before.0, target, d);
        let n: nat = if fires(before.0, target, d) { 1 } else { 0 };
        assert(target * (before.1 + n) == target * before.1 + target * n) by (nonlinear_arith);
    }
}

} // verus!
