//! The counter frequency as shared configuration, and the builders that turn
//! a duration into a timeout at the frequency they hold.
use vstd::prelude::*;
use core::marker::PhantomData;
use crate::convert::{ms_ticks, ns_ticks, us_ticks};
use crate::instant::TickInstant;
use crate::timeout::TickTimeout;

verus! {

/// Writes `value` into `slot`.
fn write_frequency(slot: &mut u32, value: u32)
    ensures
        *final(slot) == value,
{
    *slot = value;
}

/// Relies on `critical_section::with`: it runs the closure once, between
/// acquiring and releasing the critical section, and returns its result. The
/// write of `value` into `slot` thus happens with interrupts masked.
#[verifier::external_body]
fn write_in_critical_section(slot: &mut u32, value: u32)
    ensures
        *final(slot) == value,
{
    critical_section::with(|_| write_frequency(slot, value))
}

/// The frequency of a tick counter, in kHz, held for the code that converts
/// durations at it. Updated under a critical section.
pub struct FrequencyHolder<T> {
    frequency: u32,
    _t: PhantomData<T>,
}

impl<T: TickInstant> FrequencyHolder<T> {
    /// The frequency held, in kHz.
    pub closed spec fn khz(self) -> u32 {
        self.frequency
    }

    /// A holder of `frequency` kHz, which may not be zero.
    pub fn new(frequency: u32) -> (r: Self)
        requires
            frequency >= 1,
        ensures
            r.khz() == frequency,
    {
        FrequencyHolder { frequency, _t: PhantomData }
    }

    /// Replaces the frequency, in kHz, under a critical section. Zero is no
    /// frequency.
    pub fn set(&mut self, frequency: u32)
        requires
            frequency >= 1,
        ensures
            final(self).khz() == frequency,
    {
        write_in_critical_section(&mut self.frequency, frequency);
    }

    /// The frequency held, in kHz.
    pub fn get(&self) -> (r: u32)
        ensures
            r == self.khz(),
    {
        self.frequency
    }
}

/// Starts timeouts at the frequency, in ticks per second, that it holds. A
/// timeout keeps the target it was started with: a later `set` does not
/// touch it.
pub struct TickTimeoutBuilder<T> {
    frequency: u32,
    _t: PhantomData<T>,
}

impl<T: TickInstant> TickTimeoutBuilder<T> {
    /// The frequency held, in ticks per second.
    pub closed spec fn hz(self) -> u32 {
        self.frequency
    }

    /// A builder for a 1 MHz counter.
    pub fn empty() -> (r: Self)
        ensures
            r.hz() == 1_000_000,
    {
        TickTimeoutBuilder { frequency: 1_000_000, _t: PhantomData }
    }

    /// A builder for a counter of `frequency` ticks per second, which may not
    /// be zero.
    pub fn new(frequency: u32) -> (r: Self)
        requires
            frequency >= 1,
        ensures
            r.hz() == frequency,
    {
        TickTimeoutBuilder { frequency, _t: PhantomData }
    }

    /// Replaces the frequency under a critical section. Zero is no frequency.
    pub fn set(&mut self, frequency: u32)
        requires
            frequency >= 1,
        ensures
            final(self).hz() == frequency,
    {
        write_in_critical_section(&mut self.frequency, frequency);
    }

    /// The frequency held, in ticks per second.
    pub fn frequency(&self) -> (r: u32)
        ensures
            r == self.hz(),
    {
        self.frequency
    }

    /// A timeout of `ns` nanoseconds at the frequency held, started now.
    pub fn start_ns(&self, ns: u32) -> (r: TickTimeout<T>)
        requires
            ns_ticks(self.hz(), ns) <= u32::MAX,
        ensures
            r.target() == ns_ticks(self.hz(), ns),
            r.elapsed() == 0,
    {
        TickTimeout::new_ns(self.frequency, ns)
    }

    /// A timeout of `us` microseconds at the frequency held, started now.
    pub fn start_us(&self, us: u32) -> (r: TickTimeout<T>)
        requires
            us_ticks(self.hz(), us) <= u32::MAX,
        ensures
            r.target() == us_ticks(self.hz(), us),
            r.elapsed() == 0,
    {
        TickTimeout::new_us(self.frequency, us)
    }

    /// A timeout of `ms` milliseconds at the frequency held, started now.
    pub fn start_ms(&self, ms: u32) -> (r: TickTimeout<T>)
        requires
            ms_ticks(self.hz(), ms) <= u32::MAX,
        ensures
            r.target() == ms_ticks(self.hz(), ms),
            r.elapsed() == 0,
    {
        TickTimeout::new_ms(self.frequency, ms)
    }
}

/// A timeout whose duration, in microseconds, is fixed when it is made:
/// each `start` arms a fresh countdown of it.
pub struct PresetTickTimeout<T: TickInstant> {
    timeout: TickTimeoutBuilder<T>,
    timeout_us: u32,
}

impl<T: TickInstant> PresetTickTimeout<T> {
    /// The frequency, in ticks per second.
    pub closed spec fn hz(self) -> u32 {
        self.timeout.hz()
    }

    /// The duration, in microseconds.
    pub closed spec fn micros(self) -> u32 {
        self.timeout_us
    }

    /// The duration converts to a tick count that fits in 32 bits.
    #[verifier::type_invariant]
    closed spec fn wf(self) -> bool {
        self.hz() >= 1 && us_ticks(self.hz(), self.micros()) <= u32::MAX
    }

    /// A preset of `timeout_us` microseconds at `frequency` ticks per second.
    pub fn new(frequency: u32, timeout_us: u32) -> (r: Self)
        requires
            frequency >= 1,
            us_ticks(frequency, timeout_us) <= u32::MAX,
        ensures
            r.hz() == frequency,
            r.micros() == timeout_us,
    {
        PresetTickTimeout { timeout: TickTimeoutBuilder::new(frequency), timeout_us }
    }

    /// Arms a countdown of the preset duration, started now.
    pub fn start(&self) -> (r: TickTimeout<T>)
        ensures
            r.target() == us_ticks(self.hz(), self.micros()),
            r.elapsed() == 0,
    {
        proof {
            use_type_invariant(self);
        }
        self.timeout.start_us(self.timeout_us)
    }
}

} // verus!
