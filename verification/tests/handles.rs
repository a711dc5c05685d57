use std::sync::atomic::{AtomicUsize, Ordering};
use std::sync::Arc;
use waker_waiter::{
    raw_canceler_at, raw_waiter_at, LocalWakerWaiter, RawCanceler, RawCancelerVTable, RawWaiter, RawWaiterVTable,
    WakerWait, WakerWaiter, WakerWaiterCancel, WakerWaiterCanceler,
};
use waker_waiter::{CancelerFns, WaiterFns};

#[derive(Default)]
struct Counts {
    waits: AtomicUsize,
    cancels: AtomicUsize,
    waiters_dropped: AtomicUsize,
    cancelers_dropped: AtomicUsize,
}

impl Counts {
    fn read(counter: &AtomicUsize) -> usize {
        counter.load(Ordering::SeqCst)
    }
}

struct CountingCanceler {
    counts: Arc<Counts>,
}

impl WakerWaiterCancel for CountingCanceler {
    fn cancel(self: &Arc<Self>) {
        self.counts.cancels.fetch_add(1, Ordering::SeqCst);
    }
}

impl Drop for CountingCanceler {
    fn drop(&mut self) {
        self.counts.cancelers_dropped.fetch_add(1, Ordering::SeqCst);
    }
}

struct CountingWaiter {
    counts: Arc<Counts>,
}

impl WakerWait for CountingWaiter {
    fn wait(self: &Arc<Self>) {
        self.counts.waits.fetch_add(1, Ordering::SeqCst);
    }

    fn canceler(self: &Arc<Self>) -> WakerWaiterCanceler {
        Arc::new(CountingCanceler {
            counts: Arc::clone(&self.counts),
        })
        .into()
    }
}

impl Drop for CountingWaiter {
    fn drop(&mut self) {
        self.counts.waiters_dropped.fetch_add(1, Ordering::SeqCst);
    }
}

struct OtherWaiter;

impl WakerWait for OtherWaiter {
    fn wait(self: &Arc<Self>) {}

    fn canceler(self: &Arc<Self>) -> WakerWaiterCanceler {
        Arc::new(CountingCanceler {
            counts: Arc::new(Counts::default()),
        })
        .into()
    }
}

fn counting() -> (Arc<Counts>, Arc<CountingWaiter>) {
    let counts = Arc::new(Counts::default());
    let waiter = Arc::new(CountingWaiter {
        counts: Arc::clone(&counts),
    });
    (counts, waiter)
}

#[test]
fn wait_calls_the_waiter() {
    let (counts, waiter) = counting();
    let handle: WakerWaiter = waiter.into();
    assert_eq!(Counts::read(&counts.waits), 0);
    handle.wait();
    assert_eq!(Counts::read(&counts.waits), 1);
    handle.clone().wait();
    assert_eq!(Counts::read(&counts.waits), 2);
    assert_eq!(Counts::read(&counts.cancels), 0);
}

#[test]
fn canceler_calls_the_canceler() {
    let (counts, waiter) = counting();
    let handle: WakerWaiter = waiter.into();
    let canceler = handle.canceler();
    assert_eq!(Counts::read(&counts.cancels), 0);
    canceler.cancel();
    assert_eq!(Counts::read(&counts.cancels), 1);
    canceler.clone().cancel();
    assert_eq!(Counts::read(&counts.cancels), 2);
    assert_eq!(Counts::read(&counts.waits), 0);
}

#[test]
fn canceler_outlives_its_waiter() {
    let (counts, waiter) = counting();
    let handle: WakerWaiter = waiter.into();
    let canceler = handle.canceler();
    drop(handle);
    assert_eq!(Counts::read(&counts.waiters_dropped), 1);
    canceler.cancel();
    assert_eq!(Counts::read(&counts.cancels), 1);
}

#[test]
fn canceler_from_arc_cancels() {
    let counts = Arc::new(Counts::default());
    let canceler = Arc::new(CountingCanceler {
        counts: Arc::clone(&counts),
    });
    let handle = WakerWaiterCanceler::from(canceler);
    handle.cancel();
    handle.cancel();
    assert_eq!(Counts::read(&counts.cancels), 2);
}

#[test]
fn waiter_lives_as_long_as_its_last_handle() {
    let (counts, waiter) = counting();
    let first: WakerWaiter = waiter.into();
    let second = first.clone();
    drop(first);
    assert_eq!(Counts::read(&counts.waiters_dropped), 0);
    let third = second.clone().to_local();
    drop(second);
    assert_eq!(Counts::read(&counts.waiters_dropped), 0);
    third.wait();
    assert_eq!(Counts::read(&counts.waits), 1);
    drop(third);
    assert_eq!(Counts::read(&counts.waiters_dropped), 1);
}

#[test]
fn handle_gives_the_arc_back() {
    let (counts, waiter) = counting();
    assert_eq!(Arc::strong_count(&waiter), 1);
    let handle: WakerWaiter = Arc::clone(&waiter).into();
    assert_eq!(Arc::strong_count(&waiter), 2);
    let local = handle.to_local();
    assert_eq!(Arc::strong_count(&waiter), 2);
    drop(local);
    assert_eq!(Arc::strong_count(&waiter), 1);
    assert_eq!(Counts::read(&counts.waiters_dropped), 0);
}

#[test]
fn every_handle_owns_a_share_of_its_arc() {
    let (counts, waiter) = counting();
    let first: WakerWaiter = Arc::clone(&waiter).into();
    let second = first.clone();
    assert_eq!(Arc::strong_count(&waiter), 3);
    let third = second.clone().to_local();
    let fourth = third.clone();
    assert_eq!(Arc::strong_count(&waiter), 5);
    drop(first);
    assert_eq!(Arc::strong_count(&waiter), 4);
    drop(third);
    drop(second);
    assert_eq!(Arc::strong_count(&waiter), 2);
    let fifth = fourth.clone();
    drop(fourth);
    assert_eq!(Arc::strong_count(&waiter), 2);
    fifth.wait();
    assert_eq!(Counts::read(&counts.waits), 1);
    drop(fifth);
    assert_eq!(Arc::strong_count(&waiter), 1);
    assert_eq!(Counts::read(&counts.waiters_dropped), 0);
}

#[test]
fn every_canceler_owns_a_share_of_its_arc() {
    let counts = Arc::new(Counts::default());
    let canceler = Arc::new(CountingCanceler {
        counts: Arc::clone(&counts),
    });
    let first = WakerWaiterCanceler::from(Arc::clone(&canceler));
    assert_eq!(Arc::strong_count(&canceler), 2);
    let second = first.clone();
    let third = second.clone();
    assert_eq!(Arc::strong_count(&canceler), 4);
    drop(first);
    drop(second);
    assert_eq!(Arc::strong_count(&canceler), 2);
    third.clone().cancel();
    assert_eq!(Counts::read(&counts.cancels), 1);
    drop(third);
    assert_eq!(Arc::strong_count(&canceler), 1);
    assert_eq!(Counts::read(&counts.cancelers_dropped), 0);
}

#[test]
fn canceler_lives_as_long_as_its_last_handle() {
    let (counts, waiter) = counting();
    let handle: WakerWaiter = waiter.into();
    let first = handle.canceler();
    let second = first.clone();
    drop(first);
    assert_eq!(Counts::read(&counts.cancelers_dropped), 0);
    drop(second);
    assert_eq!(Counts::read(&counts.cancelers_dropped), 1);
}

#[test]
fn clones_are_the_same_waiter() {
    let (_, waiter) = counting();
    let a: WakerWaiter = waiter.into();
    let b = a.clone();
    let c = b.clone();
    assert!(a == a);
    assert!(a == b);
    assert!(b == a);
    assert!(a == c);
    assert!(!(a != c));
}

#[test]
fn handles_of_one_arc_are_the_same_waiter() {
    let (_, waiter) = counting();
    let a: WakerWaiter = Arc::clone(&waiter).into();
    let b: WakerWaiter = waiter.into();
    assert!(a == b);
}

#[test]
fn handles_of_two_arcs_differ() {
    let (_, first) = counting();
    let (_, second) = counting();
    let a: WakerWaiter = first.into();
    let b: WakerWaiter = second.into();
    let c: WakerWaiter = Arc::new(OtherWaiter).into();
    assert!(a != b);
    assert!(a != c);
    assert!(c != b);
}

#[test]
fn local_handle_is_of_the_same_waiter() {
    let (counts, waiter) = counting();
    let handle: WakerWaiter = Arc::clone(&waiter).into();
    let a: LocalWakerWaiter = handle.clone().to_local();
    let b: LocalWakerWaiter = handle.to_local();
    assert!(a == b);
    assert!(a.clone() == b);
    let other: WakerWaiter = Arc::new(OtherWaiter).into();
    assert!(a != other.to_local());
    a.wait();
    b.clone().wait();
    assert_eq!(Counts::read(&counts.waits), 2);
    match a.canceler() {
        Some(canceler) => canceler.cancel(),
        None => panic!("a waiter made of an Arc has a canceler"),
    }
    assert_eq!(Counts::read(&counts.cancels), 1);
}

#[test]
fn handles_can_be_sent_and_shared() {
    fn sent_and_shared<T: Send + Sync>() {}
    sent_and_shared::<WakerWaiter>();
    sent_and_shared::<WakerWaiterCanceler>();
}

struct NoCanceler {
    mark: usize,
}

impl WaiterFns for NoCanceler {
    fn clone(&self, data: usize) -> usize {
        data
    }

    fn wait(&self, _data: usize) {}

    fn canceler(&self, data: usize) -> Option<RawCanceler> {
        assert_eq!(self.mark, data);
        None
    }
}

struct NoCancel;

impl CancelerFns for NoCancel {
    fn clone(&self, data: usize) -> usize {
        data
    }

    fn cancel(&self, _data: usize) {}
}

struct WithCanceler;

impl WaiterFns for WithCanceler {
    fn clone(&self, data: usize) -> usize {
        data
    }

    fn wait(&self, _data: usize) {}

    fn canceler(&self, data: usize) -> Option<RawCanceler> {
        let vtable = Arc::new(RawCancelerVTable::new(NoCancel));
        Some(RawCanceler::new(data, vtable))
    }
}

#[test]
fn raw_waiters_compare_by_data_and_table() {
    let a = Arc::new(RawWaiterVTable::new(NoCanceler { mark: 7 }));
    let b = Arc::new(RawWaiterVTable::new(NoCanceler { mark: 9 }));
    let c = Arc::new(RawWaiterVTable::new(WithCanceler));
    assert!(*a == *b);
    assert!(*a != *c);

    assert!(RawWaiter::new(7, Arc::clone(&a)) == RawWaiter::new(7, Arc::clone(&a)));
    assert!(RawWaiter::new(7, Arc::clone(&a)) == RawWaiter::new(7, b));
    assert!(RawWaiter::new(7, Arc::clone(&a)) != RawWaiter::new(8, Arc::clone(&a)));
    assert!(RawWaiter::new(7, a) != RawWaiter::new(7, c));
}

#[test]
fn raw_waiters_of_one_type_compare_by_data() {
    let (_, first) = counting();
    let (_, second) = counting();
    assert!(raw_waiter_at(40, Arc::clone(&first)) == raw_waiter_at(40, second));
    assert!(raw_waiter_at(41, Arc::clone(&first)) != raw_waiter_at(40, Arc::clone(&first)));
    assert!(raw_waiter_at(40, Arc::clone(&first)) != raw_waiter_at(40, Arc::new(OtherWaiter)));
    let table = Arc::new(RawWaiterVTable::new(NoCanceler { mark: 40 }));
    assert!(raw_waiter_at(40, first) != RawWaiter::new(40, table));
}

#[test]
fn raw_handles_own_the_arc() {
    let (counts, waiter) = counting();
    let raw = raw_waiter_at(40, Arc::clone(&waiter));
    assert_eq!(Arc::strong_count(&waiter), 2);
    drop(raw);
    assert_eq!(Arc::strong_count(&waiter), 1);

    let canceler = Arc::new(CountingCanceler { counts });
    let raw = raw_canceler_at(40, Arc::clone(&canceler));
    assert_eq!(Arc::strong_count(&canceler), 2);
    drop(raw);
    assert_eq!(Arc::strong_count(&canceler), 1);
}
