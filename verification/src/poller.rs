//! The interface between a future and whatever polls it.
use crate::ctx_ref::{ctx_downcast, Anyable, Context, Ext};
use crate::error::{SetLocalWaiterError, SetWaiterError};
use crate::waiter::{LocalWakerWaiter, WakerWaiter};
use vstd::prelude::*;

verus! {

/// What polls top-level futures. A future that brings its own event polling
/// registers a waiter on it.
pub trait TopLevelPoller {
    /// Bounds what it takes to register `waiter`: the set of invariants that may
    /// be opened for it. A poller that leaves it out may open any.
    open spec fn set_waiter_opens(&self, waiter: &WakerWaiter) -> Set<int> {
        Set::full()
    }

    /// Bounds what it takes to register a waiter that stays on its thread, in the
    /// same way.
    open spec fn set_local_waiter_opens(&self, waiter: &LocalWakerWaiter) -> Set<int> {
        Set::full()
    }

    /// Registers `waiter`, to be blocked on while no future can go on.
    ///
    /// Only one waiter can be registered on a poller.
    fn set_waiter(&mut self, waiter: &WakerWaiter) -> (res: Result<(), SetWaiterError>)
        opens_invariants old(self).set_waiter_opens(waiter)
    ;

    /// Registers a waiter that stays on the thread of the poller.
    ///
    /// A poller that does not say otherwise takes none.
    fn set_local_waiter(&mut self, _waiter: &LocalWakerWaiter) -> (res: Result<
        (),
        SetLocalWaiterError,
    >)
        default_ensures
            res == Err::<(), SetLocalWaiterError>(SetLocalWaiterError::Unsupported),
            &*final(self) == &*old(self),
        opens_invariants old(self).set_local_waiter_opens(_waiter)
    {
        Err(SetLocalWaiterError::Unsupported)
    }
}

/// The poller that the context carries, if it carries one. To find it calls no
/// function of the poller.
pub fn get_poller<'b, 'a, 'p>(cx: &'b mut Context<'a, dyn TopLevelPoller + 'p>) -> (poller: Option<
    &'b mut (dyn TopLevelPoller + 'p),
>)
    ensures
        poller is Some <==> old(cx).ext is Anyable,
        poller matches Some(p) ==> {
            &&& &*p == &*old(cx).ext->0
            &&& final(cx).ext is Anyable
            &&& &*final(cx).ext->0 == &*final(p)
            &&& &*final(final(cx).ext->0) == &*final(old(cx).ext->0)
        },
        poller is None ==> final(cx).ext is Other,
    opens_invariants none
    no_unwind
{
    ctx_downcast(cx)
}

/// Gives up the context for the poller that it carries, if it carries one.
pub fn into_poller<'a, 'p>(cx: Context<'a, dyn TopLevelPoller + 'p>) -> (poller: Option<
    &'a mut (dyn TopLevelPoller + 'p),
>)
    ensures
        poller is Some <==> cx.ext is Anyable,
        poller matches Some(p) ==> {
            &&& &*p == &*cx.ext->0
            &&& &*final(p) == &*final(cx.ext->0)
        },
    opens_invariants none
    no_unwind
{
    cx.downcast()
}

/// The poller that is found in a context is the one that [`Anyable::new`] was
/// given, and what is registered on the one found is registered on the one given.
///
/// The reference in `r` goes into `anyable`, which lends `ext` to the context `cx`, where `found`
/// is found. The statement is about the time when both the context and the
/// `Anyable` are used no more.
pub proof fn lent_poller_is_found<'a, 'b, 'c, 'p>(
    r: (&'a mut (dyn TopLevelPoller + 'p),),
    anyable: &'b mut Anyable<'a, dyn TopLevelPoller + 'p>,
    ext: Ext<'b, dyn TopLevelPoller + 'p>,
    cx: &'c mut Context<'b, dyn TopLevelPoller + 'p>,
    found: Option<&'c mut (dyn TopLevelPoller + 'p)>,
)
    requires
        call_ensures(Anyable::<'a, dyn TopLevelPoller + 'p>::new, r, *old(anyable)),
        call_ensures(Anyable::<'a, dyn TopLevelPoller + 'p>::as_any, (anyable,), ext),
        old(cx).ext == ext,
        call_ensures(get_poller, (cx,), found),
        has_resolved(*final(cx)),
        has_resolved(*final(anyable)),
    ensures
        found is Some,
        &*found->0 == &*old(r.0),
        &*final(r.0) == &*final(found->0),
{
    crate::ctx_ref::resolved_target(*final(anyable));
}

/// The same of a context that is given up for its poller.
pub proof fn lent_poller_is_given_up<'a, 'b, 'p>(
    r: (&'a mut (dyn TopLevelPoller + 'p),),
    anyable: &'b mut Anyable<'a, dyn TopLevelPoller + 'p>,
    cx: Context<'b, dyn TopLevelPoller + 'p>,
    found: Option<&'b mut (dyn TopLevelPoller + 'p)>,
)
    requires
        call_ensures(Anyable::<'a, dyn TopLevelPoller + 'p>::new, r, *old(anyable)),
        call_ensures(Anyable::<'a, dyn TopLevelPoller + 'p>::as_any, (anyable,), cx.ext),
        call_ensures(into_poller, (cx,), found),
        has_resolved(*final(anyable)),
    ensures
        found is Some,
        &*found->0 == &*old(r.0),
        &*final(r.0) == &*final(found->0),
{
    crate::ctx_ref::resolved_target(*final(anyable));
}

/// A context that carries no poller gives none.
pub proof fn no_poller_is_found_where_none_was_lent<'a, 'b, 'p>(
    cx: &'b mut Context<'a, dyn TopLevelPoller + 'p>,
    found: Option<&'b mut (dyn TopLevelPoller + 'p)>,
)
    requires
        old(cx).ext is Other,
        call_ensures(get_poller, (cx,), found),
    ensures
        found is None,
        final(cx).ext is Other,
{
}

} // verus!
