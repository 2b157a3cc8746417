//! One-way notifications between a notifier and a waiter that share a flag.
use vstd::prelude::*;
use core::marker::PhantomData;
use std::sync::Arc;
use std::sync::atomic::{AtomicBool, Ordering};

verus! {

/// A notifier whose waits always succeed at once.
#[derive(Clone)]
pub struct FakeNotifier;

impl FakeNotifier {
    /// A notifier and its waiter.
    pub fn new() -> (r: (Self, Self)) {
        (FakeNotifier, FakeNotifier)
    }

    /// Sends a notification; always accepted.
    pub fn notify(&self) -> (r: bool)
        ensures
            r,
    {
        true
    }

    /// Waits for a notification; it is always already there.
    pub fn wait(&self) -> (r: bool)
        ensures
            r,
    {
        true
    }
}

/// The sending side of a notification flag shared with an
/// `AtomicNotifyWaiter`.
pub struct AtomicNotifier<OS> {
    flag: Arc<AtomicBool>,
    _os: PhantomData<OS>,
}

/// The receiving side of a notification flag shared with an `AtomicNotifier`.
pub struct AtomicNotifyWaiter<OS> {
    flag: Arc<AtomicBool>,
    _os: PhantomData<OS>,
}

impl<OS> Clone for AtomicNotifier<OS> {
    fn clone(&self) -> Self {
        AtomicNotifier { flag: Arc::clone(&self.flag), _os: PhantomData }
    }
}

impl<OS> AtomicNotifier<OS> {
    /// A notifier and its waiter, with no notification pending.
    pub fn new() -> (r: (Self, AtomicNotifyWaiter<OS>)) {
        let s = AtomicNotifier { flag: Arc::new(AtomicBool::new(false)), _os: PhantomData };
        let w = AtomicNotifyWaiter { flag: Arc::clone(&s.flag), _os: PhantomData };
        (s, w)
    }

    /// Raises the flag; always accepted.
    pub fn notify(&self) -> (r: bool)
        ensures
            r,
    {
        self.flag.store(true, Ordering::Release);
        true
    }
}

impl<OS> AtomicNotifyWaiter<OS> {
    /// Takes a pending notification: lowers the flag and says whether it was
    /// raised.
    pub fn take_notification(&self) -> bool {
        self.flag.compare_exchange(true, false, Ordering::SeqCst, Ordering::Acquire).is_ok()
    }
}

/// The sending side of a notification flag shared with a `StdNotifyWaiter`.
#[derive(Clone)]
pub struct StdNotifier {
    flag: Arc<AtomicBool>,
}

/// The receiving side of a notification flag shared with a `StdNotifier`.
pub struct StdNotifyWaiter {
    flag: Arc<AtomicBool>,
}

impl StdNotifier {
    /// A notifier and its waiter, with no notification pending.
    pub fn new() -> (r: (Self, StdNotifyWaiter)) {
        let s = StdNotifier { flag: Arc::new(AtomicBool::new(false)) };
        let w = StdNotifyWaiter { flag: Arc::clone(&s.flag) };
        (s, w)
    }

    /// Raises the flag; always accepted.
    pub fn notify(&self) -> (r: bool)
        ensures
            r,
    {
        self.flag.store(true, Ordering::Release);
        true
    }
}

impl StdNotifyWaiter {
    /// Takes a pending notification: lowers the flag and says whether it was
    /// raised.
    pub fn take_notification(&self) -> bool {
        self.flag.compare_exchange(true, false, Ordering::SeqCst, Ordering::Acquire).is_ok()
    }
}

} // verus!
