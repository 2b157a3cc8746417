//! Samples of a free-running tick counter.
use vstd::prelude::*;

verus! {

/// A sample of a hardware tick counter, taken by `now` and copied by value.
pub trait TickInstant: Sized + Copy {
    /// Ticks elapsed from `earlier` to `self`: a function of the two samples
    /// alone.
    spec fn distance(self, earlier: Self) -> u32;

    /// A sample is no ticks away from itself.
    proof fn lemma_distance_to_self(a: Self)
        ensures
            a.distance(a) == 0,
    ;

    /// A sample of the counter as it stands now.
    fn now() -> Self;

    /// Ticks elapsed from `earlier` to `self`, by modular subtraction in the
    /// counter's own width, so that a counter that wrapped once in between
    /// still gives the true count.
    fn tick_since(self, earlier: Self) -> (r: u32)
        ensures
            r == self.distance(earlier),
    ;

    /// Ticks elapsed since `self`, up to a fresh sample.
    fn tick_elapsed(self) -> (r: u32)
        ensures
            exists|n: Self| r == n.distance(self),
    {
        Self::now().tick_since(self)
    }
}

/// Ticks from `earlier` to `later` on a 32-bit counter that wraps at `2^32`.
pub open spec fn wrapped_distance(later: u32, earlier: u32) -> u32 {
    ((later as int - earlier as int) % 0x1_0000_0000) as u32
}

/// A sample of a 32-bit counter that stands still: `now` always reads zero.
/// Other readings are made with `from_raw`, which lets a caller drive the
/// clock by hand.
#[derive(Clone, Copy, Debug, PartialEq, Eq, Structural)]
pub struct FakeTickInstant {
    raw: u32,
}

impl FakeTickInstant {
    /// The counter reading this sample holds.
    pub closed spec fn reading(self) -> u32 {
        self.raw
    }

    /// A sample that reads `raw`.
    pub fn from_raw(raw: u32) -> (r: Self)
        ensures
            r.reading() == raw,
    {
        FakeTickInstant { raw }
    }

    /// The counter reading this sample holds.
    pub fn raw(&self) -> (r: u32)
        ensures
            r == self.reading(),
    {
        self.raw
    }

    /// Ticks from `earlier` to `self`, modulo `2^32`.
    pub fn ticks_since(self, earlier: Self) -> (r: u32)
        ensures
            r == wrapped_distance(self.reading(), earlier.reading()),
    {
        self.raw.wrapping_sub(earlier.raw)
    }
}

impl TickInstant for FakeTickInstant {
    open spec fn distance(self, earlier: Self) -> u32 {
        wrapped_distance(self.reading(), earlier.reading())
    }

    proof fn lemma_distance_to_self(a: Self) {
    }

    fn now() -> Self {
        FakeTickInstant { raw: 0 }
    }

    fn tick_since(self, earlier: Self) -> (r: u32) {
        self.ticks_since(earlier)
    }
}

/// The distance of a counter reading from itself is zero.
pub proof fn lemma_wrapped_distance_to_self(a: u32)
    ensures
        wrapped_distance(a, a) == 0,
{
}

/// Wraparound safety: `n` ticks after a reading of `earlier`, the counter reads
/// `earlier + n` modulo `2^32`, and the distance recovers `n`, whether or not
/// the counter wrapped in between.
pub proof fn lemma_distance_after_wrap(earlier: u32, n: u32)
    ensures
        wrapped_distance(((earlier as int + n as int) % 0x1_0000_0000) as u32, earlier) == n,
{
}

} // verus!
