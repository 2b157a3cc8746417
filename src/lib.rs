//! Timing primitives over a raw, possibly wrapping tick counter: conversion of
//! durations into tick counts, a drift-compensated reusable timeout, a busy-wait
//! delay built on it, and a holder for the counter's frequency.
pub mod convert;
pub mod delay;
pub mod frequency;
pub mod instant;
pub mod notifier;
pub mod timeout;

pub use convert::{ms_to_ticks, ns_to_ticks, us_to_ticks};
pub use delay::TickDelay;
pub use frequency::{FrequencyHolder, PresetTickTimeout, TickTimeoutBuilder};
pub use instant::{FakeTickInstant, TickInstant};
pub use notifier::{AtomicNotifier, AtomicNotifyWaiter, FakeNotifier, StdNotifier, StdNotifyWaiter};
pub use timeout::{Num, TickTimeout};
