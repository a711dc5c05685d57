use std::cell::RefCell;
use std::sync::atomic::{AtomicUsize, Ordering};
use std::sync::Arc;
use waker_waiter::ctx_ref::{ctx_downcast, Context, Ext};
use waker_waiter::executor::{
    block_on_step, wake, BlockOnAction, BlockOnEvent, MyTopLevelPoller, Poll, WakeAction, WakeEvent,
};
use waker_waiter::{
    get_poller, into_poller, Anyable, LocalWakerWaiter, SetLocalWaiterError, SetWaiterError, TopLevelPoller,
    WakerWait, WakerWaiter, WakerWaiterCancel, WakerWaiterCanceler,
};

/// A poller of the kind that a runtime writes for itself.
struct CellPoller {
    waiter: RefCell<Option<WakerWaiter>>,
}

impl TopLevelPoller for CellPoller {
    fn set_waiter(&mut self, waiter: &WakerWaiter) -> Result<(), SetWaiterError> {
        let self_waiter = &mut *self.waiter.borrow_mut();

        if let Some(cur) = self_waiter {
            if cur == waiter {
                return Ok(()); // already set to this waiter
            } else {
                return Err(SetWaiterError); // already set to a different waiter
            }
        }

        *self_waiter = Some(waiter.clone());

        Ok(())
    }
}

struct NoopWakerWaiterCanceler;

impl WakerWaiterCancel for NoopWakerWaiterCanceler {
    fn cancel(self: &Arc<Self>) {}
}

struct NoopWakerWaiter;

impl WakerWait for NoopWakerWaiter {
    fn wait(self: &Arc<Self>) {}

    fn canceler(self: &Arc<Self>) -> WakerWaiterCanceler {
        Arc::new(NoopWakerWaiterCanceler).into()
    }
}

fn noop() -> WakerWaiter {
    Arc::new(NoopWakerWaiter).into()
}

/// Registers its waiter on the poller of its context, and is done.
struct MyFuture {
    waiter: WakerWaiter,
}

impl MyFuture {
    fn new() -> Self {
        Self { waiter: noop() }
    }

    fn poll(&mut self, cx: &mut Context<'_, dyn TopLevelPoller + '_>) -> Poll<()> {
        let mut cx1 = cx.rebuild();

        let poller = match get_poller(&mut cx1) {
            Some(p) => p,
            None => panic!("MyFuture requires context to provide TopLevelPoller"),
        };

        if poller.set_waiter(&self.waiter).is_err() {
            panic!("Incompatible WakerWaiter already assigned to context's TopLevelPoller");
        }

        Poll::Ready(())
    }
}

#[test]
fn test_waiter() {
    let mut poller = CellPoller {
        waiter: RefCell::new(None),
    };

    let mut fut = MyFuture::new();

    loop {
        let result = {
            let mut a = Anyable::new(&mut poller as &mut dyn TopLevelPoller);
            let mut cx = Context { ext: a.as_any() };

            fut.poll(&mut cx)
        };

        match result {
            Poll::Ready(res) => break res,
            Poll::Pending => match &*poller.waiter.borrow() {
                Some(waiter) => waiter.wait(),
                None => {}
            },
        }
    }

    assert!(*poller.waiter.borrow() == Some(fut.waiter));
}

#[test]
fn test_block_on() {
    let mut poller = MyTopLevelPoller::new();
    let mut fut = MyFuture::new();
    let mut event = BlockOnEvent::Started;

    loop {
        event = match block_on_step(event) {
            BlockOnAction::Poll => {
                let mut a = Anyable::new(&mut poller as &mut dyn TopLevelPoller);
                let mut cx = Context { ext: a.as_any() };

                BlockOnEvent::Polled(fut.poll(&mut cx))
            }
            BlockOnAction::Look => BlockOnEvent::Registered(poller.waiter_data()),
            BlockOnAction::Wait(waiter_data) => {
                waiter_data.0.wait();
                BlockOnEvent::Unblocked
            }
            BlockOnAction::Park => panic!("nothing to park for"),
            BlockOnAction::Return(()) => break,
        };
    }

    assert!(poller.waiter_data().is_some());
}

/// Counts its waits; the future below is done once it has waited long enough.
struct Ticks {
    waits: AtomicUsize,
    cancels: AtomicUsize,
}

struct TicksCanceler {
    ticks: Arc<Ticks>,
}

impl WakerWaiterCancel for TicksCanceler {
    fn cancel(self: &Arc<Self>) {
        self.ticks.cancels.fetch_add(1, Ordering::SeqCst);
    }
}

impl WakerWait for Ticks {
    fn wait(self: &Arc<Self>) {
        self.waits.fetch_add(1, Ordering::SeqCst);
    }

    fn canceler(self: &Arc<Self>) -> WakerWaiterCanceler {
        Arc::new(TicksCanceler {
            ticks: Arc::clone(self),
        })
        .into()
    }
}

fn ticks() -> Arc<Ticks> {
    Arc::new(Ticks {
        waits: AtomicUsize::new(0),
        cancels: AtomicUsize::new(0),
    })
}

#[test]
fn executor_waits_until_the_future_is_done() {
    let source = ticks();
    let waiter: WakerWaiter = Arc::clone(&source).into();
    let mut poller = MyTopLevelPoller::new();
    let mut polls = 0;
    let mut event = BlockOnEvent::Started;

    let value = loop {
        event = match block_on_step(event) {
            BlockOnAction::Poll => {
                polls += 1;
                let mut a = Anyable::new(&mut poller as &mut dyn TopLevelPoller);
                let mut cx = Context { ext: a.as_any() };
                match get_poller(&mut cx) {
                    Some(p) => assert!(p.set_waiter(&waiter).is_ok()),
                    None => panic!("the context carries a poller"),
                }
                let waits = source.waits.load(Ordering::SeqCst);
                if waits == 3 {
                    BlockOnEvent::Polled(Poll::Ready(waits * 10))
                } else {
                    BlockOnEvent::Polled(Poll::Pending)
                }
            }
            BlockOnAction::Look => BlockOnEvent::Registered(poller.waiter_data()),
            BlockOnAction::Wait(waiter_data) => {
                waiter_data.0.wait();
                BlockOnEvent::Unblocked
            }
            BlockOnAction::Park => panic!("a waiter is registered"),
            BlockOnAction::Return(value) => break value,
        };
    };

    assert_eq!(value, 30);
    assert_eq!(polls, 4);
}

#[test]
fn executor_steps() {
    assert!(matches!(
        block_on_step(BlockOnEvent::<u8>::Started),
        BlockOnAction::Poll
    ));
    assert!(matches!(
        block_on_step(BlockOnEvent::<u8>::Unblocked),
        BlockOnAction::Poll
    ));
    assert!(matches!(
        block_on_step(BlockOnEvent::Polled(Poll::Ready(5u8))),
        BlockOnAction::Return(5)
    ));
    assert!(matches!(
        block_on_step(BlockOnEvent::Polled(Poll::<u8>::Pending)),
        BlockOnAction::Look
    ));

    let mut poller = MyTopLevelPoller::new();
    assert!(matches!(
        block_on_step(BlockOnEvent::<u8>::Registered(poller.waiter_data())),
        BlockOnAction::Park
    ));
    let waiter = noop();
    assert!(poller.set_waiter(&waiter).is_ok());
    match block_on_step(BlockOnEvent::<u8>::Registered(poller.waiter_data())) {
        BlockOnAction::Wait((w, _)) => assert!(w == waiter),
        _ => panic!("a waiter is registered"),
    }
}

#[test]
fn executor_blocks_once_between_two_polls() {
    let poller = MyTopLevelPoller::new();
    let pending = 4;
    let mut polls = 0;
    let mut blocks = 0;
    let mut trace = String::new();
    let mut event = BlockOnEvent::Started;

    let value = loop {
        event = match block_on_step(event) {
            BlockOnAction::Poll => {
                trace.push('p');
                polls += 1;
                BlockOnEvent::Polled(if polls <= pending {
                    Poll::Pending
                } else {
                    Poll::Ready("done")
                })
            }
            BlockOnAction::Look => {
                trace.push('l');
                BlockOnEvent::Registered(poller.waiter_data())
            }
            BlockOnAction::Wait(_) => panic!("no waiter is registered"),
            BlockOnAction::Park => {
                trace.push('b');
                blocks += 1;
                BlockOnEvent::Unblocked
            }
            BlockOnAction::Return(value) => break value,
        };
    };

    assert_eq!(value, "done");
    assert_eq!(polls, 5);
    assert_eq!(blocks, 4);
    assert_eq!(trace, "plbplbplbplbp");
}

#[test]
fn wake_undoes_what_the_executor_blocks_on() {
    assert!(matches!(
        wake(WakeEvent::Woken { own_thread: true }),
        WakeAction::Nothing
    ));
    assert!(matches!(
        wake(WakeEvent::Woken { own_thread: false }),
        WakeAction::Look
    ));

    let mut poller = MyTopLevelPoller::new();
    assert!(matches!(
        wake(WakeEvent::Registered(poller.waiter_data())),
        WakeAction::Unpark
    ));

    let source = ticks();
    let waiter: WakerWaiter = Arc::clone(&source).into();
    assert!(poller.set_waiter(&waiter).is_ok());
    match wake(WakeEvent::Registered(poller.waiter_data())) {
        WakeAction::Cancel((w, canceler)) => {
            assert!(w == waiter);
            canceler.cancel()
        }
        _ => panic!("a waiter is registered"),
    }
    assert_eq!(source.cancels.load(Ordering::SeqCst), 1);
    assert_eq!(source.waits.load(Ordering::SeqCst), 0);
}

#[test]
fn executor_and_waker_hold_waiter_and_canceler() {
    let source = ticks();
    let mut poller = MyTopLevelPoller::new();
    assert!(poller.set_waiter(&Arc::clone(&source).into()).is_ok());
    // the waiter and its canceler, which keeps a share of its own
    assert_eq!(Arc::strong_count(&source), 3);

    let waiting = block_on_step(BlockOnEvent::<u8>::Registered(poller.waiter_data()));
    assert!(matches!(waiting, BlockOnAction::Wait(_)));
    assert_eq!(Arc::strong_count(&source), 4);
    let waking = wake(WakeEvent::Registered(poller.waiter_data()));
    assert!(matches!(waking, WakeAction::Cancel(_)));
    assert_eq!(Arc::strong_count(&source), 5);
    drop(poller);
    drop(waking);
    assert_eq!(Arc::strong_count(&source), 3);
    drop(waiting);
    assert_eq!(Arc::strong_count(&source), 1);
}

#[test]
fn only_one_waiter_can_be_registered() {
    let mut poller = MyTopLevelPoller::new();
    assert!(poller.waiter_data().is_none());

    let first = noop();
    let second = noop();
    let third: WakerWaiter = ticks().into();
    assert!(poller.set_waiter(&first).is_ok());
    assert!(poller.set_waiter(&first.clone()).is_ok());
    assert!(poller.set_waiter(&second).is_err());
    assert!(poller.set_waiter(&third).is_err());
    assert!(poller.set_waiter(&first).is_ok());
    match poller.waiter_data() {
        Some((waiter, _)) => assert!(waiter == first),
        None => panic!("a waiter is registered"),
    }
}

#[test]
fn local_waiters_are_unsupported_by_default() {
    let waiter: LocalWakerWaiter = noop().to_local();
    let mut poller = MyTopLevelPoller::new();
    assert!(matches!(
        poller.set_local_waiter(&waiter),
        Err(SetLocalWaiterError::Unsupported)
    ));
    assert!(poller.waiter_data().is_none());

    let mut poller = CellPoller {
        waiter: RefCell::new(None),
    };
    assert!(matches!(
        poller.set_local_waiter(&waiter),
        Err(SetLocalWaiterError::Unsupported)
    ));
}

#[test]
fn errors_in_words() {
    assert_eq!(SetWaiterError.to_string(), "Failed to set waiter: conflict");
    assert_eq!(
        SetLocalWaiterError::Conflict.to_string(),
        "Failed to set local waiter: conflict"
    );
    assert_eq!(
        SetLocalWaiterError::Unsupported.to_string(),
        "Failed to set local waiter: unsupported"
    );
    assert_eq!(format!("{:?}", SetWaiterError), "SetWaiterError");
    assert_eq!(format!("{:?}", SetLocalWaiterError::Conflict), "Conflict");
}

#[test]
fn context_without_a_poller_gives_none() {
    let mut cx: Context<'_, dyn TopLevelPoller> = Context { ext: Ext::Other };
    assert!(get_poller(&mut cx).is_none());
    assert!(get_poller(&mut cx).is_none());
}

#[test]
fn context_gives_back_what_was_put_in() {
    let mut number = 4u64;
    {
        let mut a = Anyable::new(&mut number);
        {
            let mut cx = Context { ext: a.as_any() };
            match ctx_downcast(&mut cx) {
                Some(n) => {
                    assert_eq!(*n, 4);
                    *n = 7;
                }
                None => panic!("the context carries a number"),
            }
            match ctx_downcast(&mut cx) {
                Some(n) => {
                    assert_eq!(*n, 7);
                    *n += 2;
                }
                None => panic!("the context carries a number"),
            }
        }
        let mut cx = Context { ext: a.as_any() };
        assert!(matches!(ctx_downcast(&mut cx), Some(&mut 9)));
    }
    assert_eq!(number, 9);
}

#[test]
fn what_is_registered_through_a_context_is_registered_with_the_lender() {
    let waiter = noop();
    let mut poller = MyTopLevelPoller::new();
    {
        let mut a = Anyable::new(&mut poller as &mut dyn TopLevelPoller);
        let mut cx = Context { ext: a.as_any() };
        let mut rebuilt = cx.rebuild();
        match get_poller(&mut rebuilt) {
            Some(p) => assert!(p.set_waiter(&waiter).is_ok()),
            None => panic!("the context carries a poller"),
        }
        match get_poller(&mut cx) {
            Some(p) => assert!(p.set_waiter(&noop()).is_err()),
            None => panic!("the context carries a poller"),
        }
    }
    match poller.waiter_data() {
        Some((registered, _)) => assert!(registered == waiter),
        None => panic!("a waiter is registered"),
    }
}

#[test]
fn context_is_given_up_for_what_it_carries() {
    let mut number = 1u8;
    let mut a = Anyable::new(&mut number);
    let cx = Context { ext: a.as_any() };
    match cx.downcast() {
        Some(n) => *n = 2,
        None => panic!("the context carries a number"),
    }
    let mut cx: Context<'_, u8> = Context { ext: Ext::Other };
    assert!(cx.rebuild().downcast().is_none());
    assert!(cx.downcast().is_none());
    assert_eq!(number, 2);
}

#[test]
fn context_is_given_up_for_its_poller() {
    let waiter = noop();
    let mut poller = MyTopLevelPoller::new();
    {
        let mut a = Anyable::new(&mut poller as &mut dyn TopLevelPoller);
        let cx = Context { ext: a.as_any() };
        match into_poller(cx) {
            Some(p) => assert!(p.set_waiter(&waiter).is_ok()),
            None => panic!("the context carries a poller"),
        }
    }
    match poller.waiter_data() {
        Some((registered, _)) => assert!(registered == waiter),
        None => panic!("a waiter is registered"),
    }
    let empty: Context<'_, dyn TopLevelPoller> = Context { ext: Ext::Other };
    assert!(into_poller(empty).is_none());
}
