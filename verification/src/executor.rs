//! What an executor decides while it blocks on one future: which waiter is
//! registered, what to block on, and how to be unblocked.
use crate::canceler::WakerWaiterCanceler;
use crate::error::SetWaiterError;
use crate::poller::TopLevelPoller;
use crate::waiter::{WakerWait, WakerWaiter};
use std::sync::Arc;
use vstd::prelude::*;

verus! {

/// The poller of the executor. It holds the registered waiter, together with
/// what unblocks it.
pub struct MyTopLevelPoller {
    waiter_data: Option<(WakerWaiter, WakerWaiterCanceler)>,
}

impl MyTopLevelPoller {
    #[verifier::type_invariant]
    closed spec fn inv(&self) -> bool {
        self.waiter_data matches Some((waiter, canceler)) ==> waiter.has_canceler(canceler)
    }

    /// The registered waiter and its canceler, if a waiter is registered.
    pub closed spec fn registered(&self) -> Option<(WakerWaiter, WakerWaiterCanceler)> {
        self.waiter_data
    }

    /// A poller on which nothing is registered.
    pub fn new() -> (poller: Self)
        ensures
            poller.registered() is None,
        opens_invariants none
        no_unwind
    {
        MyTopLevelPoller { waiter_data: None }
    }

    /// What `waiter` is answered where another is registered already: it is taken
    /// if it is the same one, and turned down if not. Where nothing is registered
    /// there is no such answer.
    ///
    /// No function of either waiter is called, so the answer comes at once:
    /// nothing is waited for, and no wait is canceled.
    fn answer(&self, waiter: &WakerWaiter) -> (res: Option<Result<(), SetWaiterError>>)
        ensures
            match self.registered() {
                Some((cur, _)) => res == Some(
                    if cur.same_as(waiter) {
                        Ok::<(), SetWaiterError>(())
                    } else {
                        Err(SetWaiterError)
                    },
                ),
                None => res is None,
            },
        opens_invariants none
        no_unwind
    {
        match &self.waiter_data {
            Some((cur, _canceler)) => {
                if cur.is(waiter) {
                    Some(Ok(()))  // already set to this waiter
                } else {
                    Some(Err(SetWaiterError))  // already set to a different waiter
                }
            },
            None => None,
        }
    }

    /// Bounds what it takes to hand out what is registered: to clone the two
    /// handles.
    pub open spec fn waiter_data_opens(&self) -> Set<int> {
        match self.registered() {
            Some((waiter, canceler)) => waiter.raw().vtable().clone_opens().union(
                canceler.raw().vtable().clone_opens(),
            ),
            None => Set::empty(),
        }
    }

    /// The registered waiter and its canceler, if a waiter is registered. To look
    /// neither waits nor cancels.
    pub fn waiter_data(&self) -> (data: Option<(WakerWaiter, WakerWaiterCanceler)>)
        ensures
            data == self.registered(),
            data matches Some((waiter, canceler)) ==> waiter.has_canceler(canceler),
        opens_invariants self.waiter_data_opens()
    {
        proof {
            use_type_invariant(self);
        }
        match &self.waiter_data {
            Some((waiter, canceler)) => Some((waiter.duplicate(), canceler.duplicate())),
            None => None,
        }
    }
}

impl TopLevelPoller for MyTopLevelPoller {
    /// To register a waiter may clone it and ask it for a canceler. It waits on
    /// no waiter and cancels no wait.
    open spec fn set_waiter_opens(&self, waiter: &WakerWaiter) -> Set<int> {
        waiter.raw().vtable().clone_opens().union(waiter.raw().vtable().canceler_opens())
    }

    fn set_waiter(&mut self, waiter: &WakerWaiter) -> (res: Result<(), SetWaiterError>)
        ensures
            registers(old(self).registered(), *waiter, final(self).registered(), res is Ok),
    {
        match self.answer(waiter) {
            Some(res) => res,
            None => {
                self.waiter_data = Some((waiter.duplicate(), waiter.canceler()));
                Ok(())
            },
        }
    }
}

/// What comes of registering `waiter` where `before` is registered: `after` is
/// registered, and `accepted` tells whether `waiter` was taken.
///
/// The first waiter is taken, with a canceler of its own. From there on nothing
/// changes any more: the same waiter is taken again, any other is turned down.
pub open spec fn registers(
    before: Option<(WakerWaiter, WakerWaiterCanceler)>,
    waiter: WakerWaiter,
    after: Option<(WakerWaiter, WakerWaiterCanceler)>,
    accepted: bool,
) -> bool {
    match before {
        Some((cur, _)) => after == before && accepted == cur.same_as(&waiter),
        None => {
            &&& accepted
            &&& after matches Some((cur, canceler))
            &&& cur == waiter
            &&& waiter.has_canceler(canceler)
        },
    }
}

/// What polling a future came to.
pub enum Poll<T> {
    /// The future is done, with this value.
    Ready(T),
    /// The future cannot go on yet.
    Pending,
}

/// What has happened since the executor last decided what to do.
pub enum BlockOnEvent<T> {
    /// The executor was handed a future.
    Started,
    /// The future was polled.
    Polled(Poll<T>),
    /// The executor looked, and this is registered.
    Registered(Option<(WakerWaiter, WakerWaiterCanceler)>),
    /// The executor was blocked and is so no more.
    Unblocked,
}

/// What the executor does next.
pub enum BlockOnAction<T> {
    /// Poll the future.
    Poll,
    /// Look what is registered on the poller.
    Look,
    /// Block on the waiter, and keep its canceler until the wait is over.
    Wait((WakerWaiter, WakerWaiterCanceler)),
    /// Park the thread.
    Park,
    /// Return the value of the future.
    Return(T),
}

/// What an executor does upon `event`.
pub open spec fn next_action<T>(event: BlockOnEvent<T>) -> BlockOnAction<T> {
    match event {
        BlockOnEvent::Started | BlockOnEvent::Unblocked => BlockOnAction::Poll,
        BlockOnEvent::Polled(Poll::Ready(value)) => BlockOnAction::Return(value),
        BlockOnEvent::Polled(Poll::Pending) => BlockOnAction::Look,
        BlockOnEvent::Registered(Some(waiter_data)) => BlockOnAction::Wait(waiter_data),
        BlockOnEvent::Registered(None) => BlockOnAction::Park,
    }
}

/// One step of blocking on a future: it is polled until it is done, and while
/// it cannot go on, the executor blocks on the registered waiter or, without
/// one, parks its thread. It looks for a waiter only where it is about to block.
///
/// To decide calls nothing: it neither waits nor cancels.
pub fn block_on_step<T>(event: BlockOnEvent<T>) -> (action: BlockOnAction<T>)
    ensures
        action == next_action(event),
    opens_invariants none
    no_unwind
{
    match event {
        BlockOnEvent::Started => BlockOnAction::Poll,
        BlockOnEvent::Polled(Poll::Ready(value)) => BlockOnAction::Return(value),
        BlockOnEvent::Polled(Poll::Pending) => BlockOnAction::Look,
        BlockOnEvent::Registered(Some(waiter_data)) => BlockOnAction::Wait(waiter_data),
        BlockOnEvent::Registered(None) => BlockOnAction::Park,
        BlockOnEvent::Unblocked => BlockOnAction::Poll,
    }
}

/// What has happened since the waker last decided what to do.
pub enum WakeEvent {
    /// The waker was woken, on the executor's own thread or on another.
    Woken { own_thread: bool },
    /// The waker looked, and this is registered.
    Registered(Option<(WakerWaiter, WakerWaiterCanceler)>),
}

/// What the waker of an executor does next.
pub enum WakeAction {
    /// Nothing more.
    Nothing,
    /// Look what is registered on the poller.
    Look,
    /// Cancel the wait that the executor blocks on, and keep its waiter until
    /// that is done.
    Cancel((WakerWaiter, WakerWaiterCanceler)),
    /// Unpark the thread of the executor.
    Unpark,
}

/// What the waker of an executor does upon `event`.
pub open spec fn wake_action(event: WakeEvent) -> WakeAction {
    match event {
        WakeEvent::Woken { own_thread } => if own_thread {
            WakeAction::Nothing
        } else {
            WakeAction::Look
        },
        WakeEvent::Registered(Some(waiter_data)) => WakeAction::Cancel(waiter_data),
        WakeEvent::Registered(None) => WakeAction::Unpark,
    }
}

/// One step of waking an executor that may be blocked. A waker that is woken on
/// the executor's own thread does not even look what is registered.
///
/// To decide calls nothing: it neither waits nor cancels.
pub fn wake(event: WakeEvent) -> (action: WakeAction)
    ensures
        action == wake_action(event),
    opens_invariants none
    no_unwind
{
    match event {
        WakeEvent::Woken { own_thread } => {
            if own_thread {
                // The wake comes out of the wait itself, which is about to return.
                WakeAction::Nothing
            } else {
                WakeAction::Look
            }
        },
        // The executor blocks on the waiter.
        WakeEvent::Registered(Some(waiter_data)) => WakeAction::Cancel(waiter_data),
        // The executor's thread is parked.
        WakeEvent::Registered(None) => WakeAction::Unpark,
    }
}

/// What became of a poller to which `waiters` were handed in one after the other:
/// `states[i]` is what was registered before `waiters[i]` came, `states[i + 1]`
/// what was registered after it, and `accepted[i]` tells whether it was taken.
pub open spec fn is_history(
    states: Seq<Option<(WakerWaiter, WakerWaiterCanceler)>>,
    waiters: Seq<WakerWaiter>,
    accepted: Seq<bool>,
) -> bool {
    &&& states.len() == waiters.len() + 1
    &&& accepted.len() == waiters.len()
    &&& forall|k: int|
        0 <= k < waiters.len() ==> #[trigger] registers(
            states[k],
            waiters[k],
            states[k + 1],
            accepted[k],
        )
}

/// What [`TopLevelPoller::set_waiter`] of the executor's poller answers, and what
/// is registered afterwards: the first waiter is taken, with a canceler of its
/// own; after that a waiter is taken exactly if it has the data word and the type
/// of the registered one, and what is registered stays as it is either way.
pub proof fn waiters_are_taken_by_data_and_type(
    poller: &mut MyTopLevelPoller,
    waiter: WakerWaiter,
    res: Result<(), SetWaiterError>,
)
    requires
        call_ensures(<MyTopLevelPoller as TopLevelPoller>::set_waiter, (poller, &waiter), res),
    ensures
        old(poller).registered() is None ==> {
            &&& res is Ok
            &&& final(poller).registered() matches Some((cur, canceler))
            &&& cur == waiter
            &&& waiter.has_canceler(canceler)
        },
        old(poller).registered() matches Some((cur, _)) ==> {
            &&& final(poller).registered() == old(poller).registered()
            &&& res is Ok <==> cur.raw().data() == waiter.raw().data() && cur.raw().vtable().id()
                == waiter.raw().vtable().id()
        },
{
}

/// Of two `Arc`s of one type that are handed to a fresh poller one after the
/// other, the first is taken, and the second only if its value lies where that
/// of the first lies. Either way the first is what is registered.
///
/// `a` and `b` are handles that are made of `x` and `y`. `again` is the poller
/// after `a` was handed in.
pub proof fn second_arc_is_taken_only_at_the_place_of_the_first<
    W: WakerWait + Send + Sync + 'static,
>(
    x: Arc<W>,
    y: Arc<W>,
    a: WakerWaiter,
    b: WakerWaiter,
    poller: &mut MyTopLevelPoller,
    first: Result<(), SetWaiterError>,
    again: &mut MyTopLevelPoller,
    second: Result<(), SetWaiterError>,
)
    requires
        call_ensures(<WakerWaiter as From<Arc<W>>>::from, (x,), a),
        call_ensures(<WakerWaiter as From<Arc<W>>>::from, (y,), b),
        old(poller).registered() is None,
        call_ensures(<MyTopLevelPoller as TopLevelPoller>::set_waiter, (poller, &a), first),
        *old(again) == *final(poller),
        call_ensures(<MyTopLevelPoller as TopLevelPoller>::set_waiter, (again, &b), second),
    ensures
        first is Ok,
        final(again).registered() matches Some((cur, _)) && cur == a,
        second is Ok <==> a.raw().data() == b.raw().data(),
        second is Ok ==> exists|address: usize|
            #![trigger call_ensures(crate::std_calls::arc_address::<W>, (&x,), address)]
            call_ensures(crate::std_calls::arc_address::<W>, (&x,), address) && call_ensures(
                crate::std_calls::arc_address::<W>,
                (&y,),
                address,
            ),
{
    crate::waiter::handles_of_one_type_are_told_apart_by_place(x, y, a, b);
    waiters_are_taken_by_data_and_type(poller, a, first);
    waiters_are_taken_by_data_and_type(again, b, second);
}

/// Once a waiter is registered it stays so, whatever is handed in afterwards.
pub proof fn registration_is_permanent(
    states: Seq<Option<(WakerWaiter, WakerWaiterCanceler)>>,
    waiters: Seq<WakerWaiter>,
    accepted: Seq<bool>,
    i: int,
    j: int,
)
    requires
        is_history(states, waiters, accepted),
        0 <= i <= j < states.len(),
        states[i] is Some,
    ensures
        states[j] == states[i],
    decreases j - i,
{
    if i < j {
        assert(registers(states[i], waiters[i], states[i + 1], accepted[i]));
        registration_is_permanent(states, waiters, accepted, i + 1, j);
    }
}

/// On a fresh poller the waiters that are taken are the first one and those
/// that are the same as it.
pub proof fn only_one_waiter_is_accepted(
    states: Seq<Option<(WakerWaiter, WakerWaiterCanceler)>>,
    waiters: Seq<WakerWaiter>,
    accepted: Seq<bool>,
    i: int,
)
    requires
        is_history(states, waiters, accepted),
        states[0] is None,
        0 <= i < waiters.len(),
    ensures
        accepted[i] == waiters[0].same_as(&waiters[i]),
{
    assert(registers(states[0], waiters[0], states[0int + 1], accepted[0]));
    if i > 0 {
        registration_is_permanent(states, waiters, accepted, 1, i);
        assert(registers(states[i], waiters[i], states[i + 1], accepted[i]));
    }
}

/// From the first waiter on, an executor that is about to block does so on that
/// waiter, and has a canceler of it in hand.
pub proof fn executor_blocks_on_the_first_waiter<T>(
    states: Seq<Option<(WakerWaiter, WakerWaiterCanceler)>>,
    waiters: Seq<WakerWaiter>,
    accepted: Seq<bool>,
    i: int,
)
    requires
        is_history(states, waiters, accepted),
        states[0] is None,
        1 <= i < states.len(),
    ensures
        next_action::<T>(BlockOnEvent::Registered(states[i])) matches BlockOnAction::Wait(
            (waiter, canceler),
        ) && waiter == waiters[0] && waiter.has_canceler(canceler),
{
    assert(registers(states[0], waiters[0], states[0int + 1], accepted[0]));
    registration_is_permanent(states, waiters, accepted, 1, i);
}

/// A wake from another thread undoes what the executor blocks on: it cancels
/// the very waiter that is waited on, and unparks exactly where the executor
/// parks.
pub proof fn wake_unblocks_the_executor<T>(
    registered: Option<(WakerWaiter, WakerWaiterCanceler)>,
)
    requires
        registered matches Some((waiter, canceler)) ==> waiter.has_canceler(canceler),
    ensures
        wake_action(WakeEvent::Woken { own_thread: false }) is Look,
        match next_action::<T>(BlockOnEvent::Registered(registered)) {
            BlockOnAction::Wait((waiter, _)) => {
                &&& wake_action(WakeEvent::Registered(registered)) matches WakeAction::Cancel(
                    (_, canceler),
                )
                &&& waiter.has_canceler(canceler)
            },
            BlockOnAction::Park => wake_action(WakeEvent::Registered(registered)) is Unpark,
            _ => false,
        },
{
}

/// The executor and its waker answer each other: where a waiter is registered,
/// the one blocks on it and the other cancels by its canceler; where none is, the
/// one parks and the other unparks. Woken on the executor's own thread, a waker
/// does nothing at all, and on another it looks what is registered.
///
/// `blocked` is what [`block_on_step`] decides upon what is registered, `signal`
/// what [`wake`] does, and `own` and `other` are what [`wake`] decides when woken.
pub proof fn executor_and_waker_answer_each_other<T>(
    registered: Option<(WakerWaiter, WakerWaiterCanceler)>,
    blocked: BlockOnAction<T>,
    signal: WakeAction,
    own: WakeAction,
    other: WakeAction,
)
    requires
        call_ensures(block_on_step::<T>, (BlockOnEvent::Registered(registered),), blocked),
        call_ensures(wake, (WakeEvent::Registered(registered),), signal),
        call_ensures(wake, (WakeEvent::Woken { own_thread: true },), own),
        call_ensures(wake, (WakeEvent::Woken { own_thread: false },), other),
    ensures
        own is Nothing,
        other is Look,
        match registered {
            Some(waiter_data) => blocked == BlockOnAction::<T>::Wait(waiter_data) && signal
                == WakeAction::Cancel(waiter_data),
            None => blocked is Park && signal is Unpark,
        },
{
}

/// An executor returns exactly when the future is done, and with its value.
pub proof fn returns_the_value_of_the_future<T>(event: BlockOnEvent<T>, value: T)
    ensures
        next_action(event) == BlockOnAction::Return(value) <==> event == BlockOnEvent::Polled(
            Poll::Ready(value),
        ),
{
}

/// Whether the action blocks the executor.
pub open spec fn blocks<T>(action: BlockOnAction<T>) -> bool {
    action is Wait || action is Park
}

/// How often the future is polled by `actions`.
pub open spec fn polls_made<T>(actions: Seq<BlockOnAction<T>>) -> nat
    decreases actions.len(),
{
    if actions.len() == 0 {
        0
    } else {
        polls_made(actions.drop_last()) + if actions.last() is Poll {
            1nat
        } else {
            0nat
        }
    }
}

/// How often the executor is blocked by `actions`.
pub open spec fn blocks_made<T>(actions: Seq<BlockOnAction<T>>) -> nat
    decreases actions.len(),
{
    if actions.len() == 0 {
        0
    } else {
        blocks_made(actions.drop_last()) + if blocks(actions.last()) {
            1nat
        } else {
            0nat
        }
    }
}

/// How often a waiter is waited on by `actions`.
pub open spec fn waits_made<T>(actions: Seq<BlockOnAction<T>>) -> nat
    decreases actions.len(),
{
    if actions.len() == 0 {
        0
    } else {
        waits_made(actions.drop_last()) + if actions.last() is Wait {
            1nat
        } else {
            0nat
        }
    }
}

/// Whether `event` is what comes of the last of `actions`, for a future whose
/// polls come to `polls`, one after the other. Nothing comes after a return.
pub open spec fn is_answer<T>(
    polls: Seq<Poll<T>>,
    actions: Seq<BlockOnAction<T>>,
    event: BlockOnEvent<T>,
) -> bool {
    match actions.last() {
        BlockOnAction::Poll => event == BlockOnEvent::Polled(polls[polls_made(actions) - 1]),
        BlockOnAction::Look => event is Registered,
        BlockOnAction::Wait(_) | BlockOnAction::Park => event is Unblocked,
        BlockOnAction::Return(_) => false,
    }
}

/// Whether an executor that meets `events` and takes `actions` blocks on a
/// future whose polls come to `polls`: each action is what [`block_on_step`]
/// decides upon the event, and each event but the first is what comes of the
/// action before it.
pub open spec fn is_run<T>(
    polls: Seq<Poll<T>>,
    events: Seq<BlockOnEvent<T>>,
    actions: Seq<BlockOnAction<T>>,
) -> bool {
    &&& events.len() == actions.len()
    &&& events.len() > 0 ==> events[0] is Started
    &&& forall|i: int| 0 <= i < events.len() ==> #[trigger] actions[i] == next_action(events[i])
    &&& forall|i: int|
        0 < i < events.len() ==> #[trigger] is_answer(polls, actions.take(i), events[i])
}

/// An executor that starts with a future, asks [`block_on_step`] upon each event
/// what to do, and does it, makes a run.
pub proof fn steps_make_a_run<T>(
    polls: Seq<Poll<T>>,
    events: Seq<BlockOnEvent<T>>,
    actions: Seq<BlockOnAction<T>>,
)
    requires
        events.len() == actions.len(),
        events.len() > 0 ==> events[0] is Started,
        forall|i: int|
            0 <= i < events.len() ==> call_ensures(
                block_on_step::<T>,
                (events[i],),
                #[trigger] actions[i],
            ),
        forall|i: int|
            0 < i < events.len() ==> #[trigger] is_answer(polls, actions.take(i), events[i]),
    ensures
        is_run(polls, events, actions),
{
}

/// Whether the polls of a future come to nothing `k` times and then to `value`.
pub open spec fn ready_after<T>(polls: Seq<Poll<T>>, k: nat, value: T) -> bool {
    &&& polls.len() == k + 1
    &&& forall|j: int| 0 <= j < k ==> #[trigger] polls[j] is Pending
    &&& polls[k as int] == Poll::Ready(value)
}

/// What the `i`th action is, counted from zero, for a future that is done with
/// `value` after `k` polls that came to nothing.
pub open spec fn is_in_turn<T>(action: BlockOnAction<T>, i: int, k: nat, value: T) -> bool {
    if i % 3 == 0 {
        action is Poll
    } else if i == 3 * k + 1 {
        action == BlockOnAction::Return(value)
    } else if i % 3 == 1 {
        action is Look
    } else {
        blocks(action)
    }
}

/// The first `n` steps of a run.
proof fn run_prefix<T>(
    polls: Seq<Poll<T>>,
    events: Seq<BlockOnEvent<T>>,
    actions: Seq<BlockOnAction<T>>,
    k: nat,
    value: T,
    n: int,
)
    requires
        is_run(polls, events, actions),
        ready_after(polls, k, value),
        0 <= n <= actions.len(),
    ensures
        n <= 3 * k + 2,
        polls_made(actions.take(n)) == (n + 2) / 3,
        blocks_made(actions.take(n)) == n / 3,
        forall|i: int| 0 <= i < n ==> is_in_turn(#[trigger] actions[i], i, k, value),
    decreases n,
{
    if n > 0 {
        let i = n - 1;
        run_prefix(polls, events, actions, k, value, i);
        let before = actions.take(i);
        assert(actions.take(n).drop_last() =~= before);
        assert(actions.take(n).last() == actions[i]);
        assert(actions[i] == next_action(events[i]));
        if i > 0 {
            assert(is_answer(polls, before, events[i]));
            assert(before.last() == actions[i - 1]);
            assert(is_in_turn(actions[i - 1], i - 1, k, value));
            assert(i != 3 * k + 2);
            if i % 3 == 1 {
                assert(polls_made(before) - 1 == i / 3);
                assert(i / 3 <= k);
                assert(events[i] == BlockOnEvent::Polled(polls[i / 3]));
            }
        }
        assert(is_in_turn(actions[i], i, k, value));
    }
}

/// The course of a whole run, for a future whose polls come to nothing `k` times
/// and then to `value`.
///
/// The executor polls, and between one poll and the next it looks for a waiter
/// and blocks exactly once. It does not block before the first poll, and after
/// the poll that is ready it returns and does nothing more. So it returns the
/// value after `k + 1` polls and `k` blocks, and not before.
pub proof fn run_returns_the_first_ready_value<T>(
    polls: Seq<Poll<T>>,
    events: Seq<BlockOnEvent<T>>,
    actions: Seq<BlockOnAction<T>>,
    k: nat,
    value: T,
)
    requires
        is_run(polls, events, actions),
        ready_after(polls, k, value),
    ensures
        forall|i: int|
            0 <= i < actions.len() ==> is_in_turn(#[trigger] actions[i], i, k, value),
        actions.len() <= 3 * k + 2,
        forall|i: int|
            0 <= i < actions.len() ==> (#[trigger] actions[i] is Return <==> i == 3 * k + 1),
        actions.len() == 3 * k + 2 ==> {
            &&& actions.last() == BlockOnAction::Return(value)
            &&& polls_made(actions) == k + 1
            &&& blocks_made(actions) == k
        },
{
    run_prefix(polls, events, actions, k, value, actions.len() as int);
    assert(actions.take(actions.len() as int) =~= actions);
    assert forall|i: int| 0 <= i < actions.len() implies (#[trigger] actions[i] is Return <==> i
        == 3 * k + 1) by {
        assert(is_in_turn(actions[i], i, k, value));
    }
}

/// An executor that is never parked waits as often as it blocks.
proof fn waits_where_it_never_parks<T>(actions: Seq<BlockOnAction<T>>)
    requires
        forall|i: int| 0 <= i < actions.len() ==> !(#[trigger] actions[i] is Park),
    ensures
        waits_made(actions) == blocks_made(actions),
    decreases actions.len(),
{
    if actions.len() > 0 {
        assert(actions.last() == actions[actions.len() - 1]);
        waits_where_it_never_parks(actions.drop_last());
    }
}

/// Where a waiter is registered throughout, an executor waits on it exactly once
/// for each poll that comes to nothing: `k` times for a future whose polls come
/// to nothing `k` times, and on no other waiter. It never parks.
///
/// No other wait is made: [`block_on_step`] and [`wake`] call nothing.
pub proof fn run_waits_once_for_each_pending_poll<T>(
    polls: Seq<Poll<T>>,
    events: Seq<BlockOnEvent<T>>,
    actions: Seq<BlockOnAction<T>>,
    k: nat,
    value: T,
    registered: (WakerWaiter, WakerWaiterCanceler),
)
    requires
        is_run(polls, events, actions),
        ready_after(polls, k, value),
        forall|i: int|
            0 <= i < events.len() && #[trigger] events[i] is Registered ==> events[i]
                == BlockOnEvent::<T>::Registered(Some(registered)),
    ensures
        forall|i: int|
            0 <= i < actions.len() && i % 3 == 2 ==> #[trigger] actions[i] == BlockOnAction::<
                T,
            >::Wait(registered),
        forall|i: int|
            0 <= i < actions.len() ==> (#[trigger] actions[i] is Wait <==> i % 3 == 2),
        forall|i: int| 0 <= i < actions.len() ==> !(#[trigger] actions[i] is Park),
        waits_made(actions) == actions.len() / 3,
        actions.len() == 3 * k + 2 ==> waits_made(actions) == k,
{
    let n = actions.len() as int;
    run_prefix(polls, events, actions, k, value, n);
    assert(actions.take(n) =~= actions);
    assert forall|i: int| 0 <= i < actions.len() implies {
        &&& !(#[trigger] actions[i] is Park)
        &&& actions[i] is Wait <==> i % 3 == 2
        &&& i % 3 == 2 ==> actions[i] == BlockOnAction::<T>::Wait(registered)
    } by {
        assert(is_in_turn(actions[i], i, k, value));
        assert(actions[i] == next_action(events[i]));
    }
    waits_where_it_never_parks(actions);
}

} // verus!
