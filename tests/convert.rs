use os_trait::convert::{ms_to_ticks, ns_to_ticks, us_to_ticks};
use os_trait::{FakeTickInstant, TickTimeout, TickTimeoutBuilder};

#[test]
fn one_nanosecond_at_one_hertz_is_one_tick() {
    assert_eq!(ns_to_ticks(1, 1), Some(1));
    let t = TickTimeout::<FakeTickInstant>::new_ns(1, 1);
    assert_eq!(t.target_ticks(), 1);
}

#[test]
fn sub_tick_requests_round_up() {
    assert_eq!(us_to_ticks(1, 1), Some(1));
    assert_eq!(ms_to_ticks(1, 1), Some(1));
    assert_eq!(us_to_ticks(1_500, 1), Some(1));
    assert_eq!(ns_to_ticks(1_000_000, 1), Some(1));
}

#[test]
fn micros_at_one_megahertz_are_exact() {
    let b = TickTimeoutBuilder::<FakeTickInstant>::new(1_000_000);
    let t = b.start_us(500);
    assert_eq!(t.target_ticks(), 500);
    assert_eq!(t.elapsed_ticks(), 0);
    let e = TickTimeoutBuilder::<FakeTickInstant>::empty();
    assert_eq!(e.frequency(), 1_000_000);
    assert_eq!(e.start_us(500).target_ticks(), 500);
}

#[test]
fn millis_at_one_hundred_hertz() {
    let b = TickTimeoutBuilder::<FakeTickInstant>::new(100);
    assert_eq!(b.start_ms(500).target_ticks(), 50);
    assert_eq!(ms_to_ticks(100, 500), Some(50));
    assert_eq!(ms_to_ticks(100, 5), Some(1));
}

#[test]
fn conversion_exact_values() {
    assert_eq!(ns_to_ticks(1_000_000_000, 5), Some(5));
    assert_eq!(ns_to_ticks(3, 1_000_000_000), Some(3));
    assert_eq!(ns_to_ticks(1_000_000, 1_500), Some(2));
    assert_eq!(us_to_ticks(2_000_000, 3), Some(6));
    assert_eq!(us_to_ticks(48_000_000, 10), Some(480));
    assert_eq!(us_to_ticks(32_768, 1_000), Some(33));
    assert_eq!(us_to_ticks(500, 3_000), Some(2));
    assert_eq!(ms_to_ticks(32_768, 10), Some(328));
    assert_eq!(ms_to_ticks(999, 7), Some(7));
}

#[test]
fn conversion_at_tier_boundaries() {
    assert_eq!(ms_to_ticks(1_000, 7), Some(7));
    assert_eq!(ms_to_ticks(1_001, 7), Some(8));
    assert_eq!(us_to_ticks(1_000_000, 7), Some(7));
    assert_eq!(us_to_ticks(1_000_001, 7), Some(8));
    assert_eq!(us_to_ticks(1_000, 7), Some(1));
    assert_eq!(us_to_ticks(1_000, 1_000), Some(1));
    assert_eq!(us_to_ticks(1_001, 1_000), Some(2));
}

#[test]
fn fractional_ticks_round_up() {
    assert_eq!(us_to_ticks(1_500_000, 1), Some(2));
    assert_eq!(ms_to_ticks(1_500, 1), Some(2));
    assert_eq!(ns_to_ticks(1_500_000_000, 1), Some(2));
    assert_eq!(us_to_ticks(1_999_999, 1_000_000), Some(1_999_999));
    assert_eq!(ms_to_ticks(1_999, 1_000), Some(1_999));
}

#[test]
fn zero_duration_is_zero_ticks() {
    assert_eq!(ns_to_ticks(u32::MAX, 0), Some(0));
    assert_eq!(us_to_ticks(u32::MAX, 0), Some(0));
    assert_eq!(ms_to_ticks(u32::MAX, 0), Some(0));
}

#[test]
fn conversion_is_monotonic() {
    for f in [1u32, 999, 1_000, 32_768, 1_000_000, 72_000_000] {
        let mut prev = (0u32, 0u32, 0u32);
        for d in [0u32, 1, 2, 10, 999, 1_000, 1_001, 50_000] {
            let n = ns_to_ticks(f, d).unwrap();
            let u = us_to_ticks(f, d).unwrap();
            let m = ms_to_ticks(f, d).unwrap();
            assert!(n >= prev.0 && u >= prev.1 && m >= prev.2);
            prev = (n, u, m);
        }
    }
}

#[test]
fn ticks_that_do_not_fit_are_refused() {
    assert_eq!(ns_to_ticks(u32::MAX, u32::MAX), None);
    assert_eq!(us_to_ticks(u32::MAX, u32::MAX), None);
    assert_eq!(us_to_ticks(1_000_000, u32::MAX), Some(u32::MAX));
    assert_eq!(us_to_ticks(2_000_000, u32::MAX), None);
    assert_eq!(us_to_ticks(1_999_999, u32::MAX), None);
    assert_eq!(ms_to_ticks(1_999, u32::MAX), None);
    assert_eq!(us_to_ticks(1_000, 5_000_000), Some(5_000));
    assert_eq!(ms_to_ticks(1_000, 5_000_000), Some(5_000_000));
    assert_eq!(ms_to_ticks(u32::MAX, u32::MAX), None);
    assert_eq!(ms_to_ticks(1_000, u32::MAX), Some(u32::MAX));
    assert_eq!(ms_to_ticks(999, u32::MAX), Some(4_290_672_328));
}
