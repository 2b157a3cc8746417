//! Delays of a requested minimum length, counted on a tick counter.
use vstd::prelude::*;
use core::marker::PhantomData;
use crate::convert::{ms_ticks, ns_ticks, us_ticks};
use crate::instant::TickInstant;
use crate::timeout::TickTimeout;

verus! {

/// Waits of a requested minimum length on a counter of a fixed frequency. Each
/// wait is one countdown: it is over at the countdown's first fire, which
/// comes no earlier than the requested time.
pub struct TickDelay<T> {
    frequency: u32,
    _t: PhantomData<T>,
}

impl<T: TickInstant> TickDelay<T> {
    /// The frequency, in ticks per second.
    pub closed spec fn hz(self) -> u32 {
        self.frequency
    }

    /// Delays on a counter of `frequency` ticks per second, which may not be
    /// zero.
    pub fn new(frequency: u32) -> (r: Self)
        requires
            frequency >= 1,
        ensures
            r.hz() == frequency,
    {
        TickDelay { frequency, _t: PhantomData }
    }

    /// The frequency, in ticks per second.
    pub fn frequency(&self) -> (r: u32)
        ensures
            r == self.hz(),
    {
        self.frequency
    }

    /// The countdown of a wait of `ns` nanoseconds, started now.
    pub fn start_ns(&self, ns: u32) -> (r: TickTimeout<T>)
        requires
            ns_ticks(self.hz(), ns) <= u32::MAX,
        ensures
            r.target() == ns_ticks(self.hz(), ns),
            r.elapsed() == 0,
    {
        TickTimeout::new_ns(self.frequency, ns)
    }

    /// The countdown of a wait of `us` microseconds, started now.
    pub fn start_us(&self, us: u32) -> (r: TickTimeout<T>)
        requires
            us_ticks(self.hz(), us) <= u32::MAX,
        ensures
            r.target() == us_ticks(self.hz(), us),
            r.elapsed() == 0,
    {
        TickTimeout::new_us(self.frequency, us)
    }

    /// The countdown of a wait of `ms` milliseconds, started now.
    pub fn start_ms(&self, ms: u32) -> (r: TickTimeout<T>)
        requires
            ms_ticks(self.hz(), ms) <= u32::MAX,
        ensures
            r.target() == ms_ticks(self.hz(), ms),
            r.elapsed() == 0,
    {
        TickTimeout::new_ms(self.frequency, ms)
    }
}

} // verus!
