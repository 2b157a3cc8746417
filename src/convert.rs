//! Conversion of a duration, counted in nanoseconds, microseconds or
//! milliseconds, into a number of counter ticks at a given frequency (ticks per
//! second). Every conversion rounds up, so that waiting the resulting number of
//! ticks never falls short of the requested duration.
use vstd::prelude::*;

verus! {

/// Nanoseconds in one second.
pub const NANOS_PER_SEC: u64 = 1_000_000_000;

/// Microseconds in one second.
pub const MICROS_PER_SEC: u32 = 1_000_000;

/// Milliseconds in one second.
pub const MILLIS_PER_SEC: u32 = 1_000;

/// `a / b` rounded up.
pub open spec fn ceil_div(a: nat, b: nat) -> nat
    recommends
        b > 0,
{
    if a % b == 0 {
        a / b
    } else {
        a / b + 1
    }
}

/// Ticks for `ns` nanoseconds at `frequency` ticks per second:
/// `ceil(ns * frequency / 10^9)`, from the exact product.
pub open spec fn ns_ticks(frequency: u32, ns: u32) -> nat {
    ceil_div(ns as nat * frequency as nat, NANOS_PER_SEC as nat)
}

/// Ticks for `us` microseconds at `frequency` ticks per second:
/// `ceil(us * frequency / 10^6)`, from the exact product.
pub open spec fn us_ticks(frequency: u32, us: u32) -> nat {
    ceil_div(us as nat * frequency as nat, MICROS_PER_SEC as nat)
}

/// Ticks for `ms` milliseconds at `frequency` ticks per second:
/// `ceil(ms * frequency / 10^3)`, from the exact product.
pub open spec fn ms_ticks(frequency: u32, ms: u32) -> nat {
    ceil_div(ms as nat * frequency as nat, MILLIS_PER_SEC as nat)
}

/// `a / b` rounded up, on machine integers.
fn div_ceil_u64(a: u64, b: u64) -> (r: u64)
    requires
        b > 0,
    ensures
        r == ceil_div(a as nat, b as nat),
{
    let q = a / b;
    if a % b == 0 {
        q
    } else {
        proof {
            assert(q * b <= a) by (nonlinear_arith)
                requires
                    q == a / b,
                    b > 0,
            ;
            assert(q < a) by (nonlinear_arith)
                requires
                    q * b <= a,
                    a % b != 0,
                    b > 0,
                    q == a / b,
            ;
        }
        q + 1
    }
}

/// `ceil(d * frequency / units_per_sec)`, or `None` where it does not fit in
/// 32 bits. The product of two 32-bit values fits in 64 bits, so it is taken
/// whole and divided once.
fn ticks_of(frequency: u32, d: u32, units_per_sec: u64) -> (r: Option<u32>)
    requires
        units_per_sec > 0,
    ensures
        ceil_div(d as nat * frequency as nat, units_per_sec as nat) <= u32::MAX ==> r == Some(
            ceil_div(d as nat * frequency as nat, units_per_sec as nat) as u32,
        ),
        ceil_div(d as nat * frequency as nat, units_per_sec as nat) > u32::MAX ==> r is None,
{
    proof {
        assert(d as nat * frequency as nat <= u32::MAX as nat * u32::MAX as nat) by (nonlinear_arith);
    }
    let product: u64 = d as u64 * frequency as u64;
    let t = div_ceil_u64(product, units_per_sec);
    if t <= u32::MAX as u64 {
        Some(t as u32)
    } else {
        None
    }
}

/// Ticks for `ns` nanoseconds at `frequency`, or `None` where they do not fit
/// in 32 bits.
pub fn ns_to_ticks(frequency: u32, ns: u32) -> (r: Option<u32>)
    ensures
        ns_ticks(frequency, ns) <= u32::MAX ==> r == Some(ns_ticks(frequency, ns) as u32),
        ns_ticks(frequency, ns) > u32::MAX ==> r is None,
{
    ticks_of(frequency, ns, NANOS_PER_SEC)
}

/// Ticks for `us` microseconds at `frequency`, or `None` where they do not fit
/// in 32 bits.
pub fn us_to_ticks(frequency: u32, us: u32) -> (r: Option<u32>)
    ensures
        us_ticks(frequency, us) <= u32::MAX ==> r == Some(us_ticks(frequency, us) as u32),
        us_ticks(frequency, us) > u32::MAX ==> r is None,
{
    ticks_of(frequency, us, MICROS_PER_SEC as u64)
}

/// Ticks for `ms` milliseconds at `frequency`, or `None` where they do not fit
/// in 32 bits.
pub fn ms_to_ticks(frequency: u32, ms: u32) -> (r: Option<u32>)
    ensures
        ms_ticks(frequency, ms) <= u32::MAX ==> r == Some(ms_ticks(frequency, ms) as u32),
        ms_ticks(frequency, ms) > u32::MAX ==> r is None,
{
    ticks_of(frequency, ms, MILLIS_PER_SEC as u64)
}

proof fn lemma_ceil_div_monotonic(a: nat, b: nat, d: nat)
    requires
        a <= b,
        d > 0,
    ensures
        ceil_div(a, d) <= ceil_div(b, d),
{
    assert(a / d <= b / d) by (nonlinear_arith)
        requires
            a <= b,
            d > 0,
    ;
    if a / d == b / d && a % d != 0 {
        assert(b % d != 0) by (nonlinear_arith)
            requires
                a <= b,
                d > 0,
                a / d == b / d,
                a % d != 0,
        ;
    }
}

proof fn lemma_mul_monotonic(a: nat, b: nat, k: nat)
    requires
        a <= b,
    ensures
        a * k <= b * k,
{
    assert(a * k <= b * k) by (nonlinear_arith)
        requires
            a <= b,
    ;
}

proof fn lemma_ceil_div_positive(a: nat, d: nat)
    requires
        a > 0,
        d > 0,
    ensures
        ceil_div(a, d) >= 1,
{
    if a % d == 0 {
        assert(a / d >= 1) by (nonlinear_arith)
            requires
                a > 0,
                d > 0,
                a % d == 0,
        ;
    }
}

proof fn lemma_ceil_div_covers(a: nat, d: nat)
    requires
        d > 0,
    ensures
        ceil_div(a, d) * d >= a,
{
    assert(ceil_div(a, d) * d >= a) by (nonlinear_arith)
        requires
            d > 0,
            ceil_div(a, d) == if a % d == 0 {
                a / d
            } else {
                a / d + 1
            },
    ;
}

/// Waiting the converted number of ticks never falls short, in any unit:
/// `ticks / frequency` seconds is at least `d / units_per_second` seconds.
pub proof fn lemma_ticks_cover(frequency: u32, d: u32)
    ensures
        ns_ticks(frequency, d) * NANOS_PER_SEC >= d as nat * frequency as nat,
        us_ticks(frequency, d) * MICROS_PER_SEC >= d as nat * frequency as nat,
        ms_ticks(frequency, d) * MILLIS_PER_SEC >= d as nat * frequency as nat,
{
    lemma_ceil_div_covers(d as nat * frequency as nat, NANOS_PER_SEC as nat);
    lemma_ceil_div_covers(d as nat * frequency as nat, MICROS_PER_SEC as nat);
    lemma_ceil_div_covers(d as nat * frequency as nat, MILLIS_PER_SEC as nat);
}

/// A longer duration never converts to fewer ticks, in any unit, at a fixed
/// frequency.
pub proof fn lemma_ticks_monotonic(frequency: u32, d1: u32, d2: u32)
    requires
        d1 <= d2,
    ensures
        ns_ticks(frequency, d1) <= ns_ticks(frequency, d2),
        us_ticks(frequency, d1) <= us_ticks(frequency, d2),
        ms_ticks(frequency, d1) <= ms_ticks(frequency, d2),
{
    let f = frequency as nat;
    lemma_mul_monotonic(d1 as nat, d2 as nat, f);
    lemma_ceil_div_monotonic(d1 as nat * f, d2 as nat * f, NANOS_PER_SEC as nat);
    lemma_ceil_div_monotonic(d1 as nat * f, d2 as nat * f, MICROS_PER_SEC as nat);
    lemma_ceil_div_monotonic(d1 as nat * f, d2 as nat * f, MILLIS_PER_SEC as nat);
}

/// A request of at least one unit at a frequency of at least one tick per
/// second never converts to zero ticks: a sub-tick wait still waits a tick.
pub proof fn lemma_ticks_positive(frequency: u32, d: u32)
    requires
        frequency >= 1,
        d >= 1,
    ensures
        ns_ticks(frequency, d) >= 1,
        us_ticks(frequency, d) >= 1,
        ms_ticks(frequency, d) >= 1,
{
    let f = frequency as nat;
    assert(d as nat * f >= 1) by (nonlinear_arith)
        requires
            d >= 1,
            f >= 1,
    ;
    lemma_ceil_div_positive(d as nat * f, NANOS_PER_SEC as nat);
    lemma_ceil_div_positive(d as nat * f, MICROS_PER_SEC as nat);
    lemma_ceil_div_positive(d as nat * f, MILLIS_PER_SEC as nat);
}

} // verus!
