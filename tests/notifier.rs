use os_trait::{AtomicNotifier, FakeNotifier, StdNotifier};

#[test]
fn fake_notifier_always_succeeds() {
    let (n, w) = FakeNotifier::new();
    assert!(n.notify());
    assert!(w.wait());
    assert!(w.wait());
}

#[test]
fn std_notifier_hands_over_one_notification() {
    let (n, w) = StdNotifier::new();
    assert!(!w.take_notification());
    assert!(n.notify());
    assert!(w.take_notification());
    assert!(!w.take_notification());
    let n2 = n.clone();
    assert!(n2.notify());
    assert!(n.notify());
    assert!(w.take_notification());
    assert!(!w.take_notification());
}

#[test]
fn atomic_notifier_hands_over_one_notification() {
    let (n, w) = AtomicNotifier::<()>::new();
    assert!(!w.take_notification());
    let n2 = n.clone();
    assert!(n2.notify());
    assert!(w.take_notification());
    assert!(!w.take_notification());
}
