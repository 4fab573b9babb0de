use std::sync::atomic::{AtomicUsize, Ordering};
use std::sync::Arc;
use std::task::{Wake, Waker};

use spotifatius::wake_watcher::WakeWatcher;

/// Counts how often it is woken.
struct Counter {
    woken: AtomicUsize,
}

impl Wake for Counter {
    fn wake(self: Arc<Self>) {
        self.woken.fetch_add(1, Ordering::SeqCst);
    }
}

fn counter() -> Arc<Counter> {
    Arc::new(Counter { woken: AtomicUsize::new(0) })
}

#[test]
fn new_registry_is_empty() {
    let mut watcher = WakeWatcher::new();
    assert_eq!(watcher.len(), 0);
    assert_eq!(watcher.wake(), 0);
}

#[test]
fn every_registered_waker_is_woken_once() {
    let mut watcher = WakeWatcher::new();
    let first = counter();
    let second = counter();
    watcher.add_waker(Waker::from(first.clone()));
    watcher.add_waker(Waker::from(second.clone()));
    assert_eq!(watcher.len(), 2);
    assert_eq!(first.woken.load(Ordering::SeqCst), 0);
    assert_eq!(watcher.wake(), 2);
    assert_eq!(first.woken.load(Ordering::SeqCst), 1);
    assert_eq!(second.woken.load(Ordering::SeqCst), 1);
}

#[test]
fn wake_forgets_whom_it_woke() {
    let mut watcher = WakeWatcher::new();
    let only = counter();
    watcher.add_waker(Waker::from(only.clone()));
    assert_eq!(watcher.wake(), 1);
    assert_eq!(watcher.len(), 0);
    assert_eq!(watcher.wake(), 0);
    assert_eq!(only.woken.load(Ordering::SeqCst), 1);
}

#[test]
fn waker_registered_twice_is_woken_twice() {
    let mut watcher = WakeWatcher::new();
    let only = counter();
    watcher.add_waker(Waker::from(only.clone()));
    watcher.add_waker(Waker::from(only.clone()));
    assert_eq!(watcher.wake(), 2);
    assert_eq!(only.woken.load(Ordering::SeqCst), 2);
}
