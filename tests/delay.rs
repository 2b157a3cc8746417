use os_trait::{TickDelay, TickInstant};
use std::sync::OnceLock;
use std::time::{Duration, Instant};

static EPOCH: OnceLock<Instant> = OnceLock::new();

/// A free-running 1 MHz counter: microseconds since a fixed instant, truncated
/// to 32 bits. Each reading is taken right as the counter steps, so that a
/// count of ticks between two readings is a count of whole microseconds.
#[derive(Clone, Copy, PartialEq)]
struct MicrosInstant(u32);

impl TickInstant for MicrosInstant {
    fn distance(self, earlier: Self) -> u32 {
        self.0.wrapping_sub(earlier.0)
    }

    fn lemma_distance_to_self(_a: Self) {}

    fn now() -> Self {
        let epoch = EPOCH.get_or_init(Instant::now);
        let first = epoch.elapsed().as_micros();
        loop {
            let current = epoch.elapsed().as_micros();
            if current != first {
                return MicrosInstant(current as u32);
            }
        }
    }

    fn tick_since(self, earlier: Self) -> u32 {
        self.0.wrapping_sub(earlier.0)
    }
}

fn wait_ns(d: &TickDelay<MicrosInstant>, ns: u32) {
    let mut t = d.start_ns(ns);
    while !t.timeout() {
        core::hint::spin_loop();
    }
}

fn wait_us(d: &TickDelay<MicrosInstant>, us: u32) {
    let mut t = d.start_us(us);
    while !t.timeout() {
        core::hint::spin_loop();
    }
}

fn wait_ms(d: &TickDelay<MicrosInstant>, ms: u32) {
    let mut t = d.start_ms(ms);
    while !t.timeout() {
        core::hint::spin_loop();
    }
}

#[test]
fn tick_delay() {
    let d = TickDelay::<MicrosInstant>::new(1_000_000);

    let t = Instant::now();
    wait_ns(&d, 200_000_000);
    let elapsed = t.elapsed();
    assert!(elapsed >= Duration::from_millis(200));
    assert!(elapsed - Duration::from_millis(200) < Duration::from_millis(100));

    let t = Instant::now();
    wait_us(&d, 200_000);
    let elapsed = t.elapsed();
    assert!(elapsed >= Duration::from_millis(200));
    assert!(elapsed - Duration::from_millis(200) < Duration::from_millis(100));

    let t = Instant::now();
    wait_ms(&d, 500);
    let elapsed = t.elapsed();
    assert!(elapsed >= Duration::from_millis(500));
    assert!(elapsed - Duration::from_millis(500) < Duration::from_millis(100));
}
