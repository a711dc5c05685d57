//! How a polling context carries a reference to an interface such as a poller.
use vstd::prelude::*;

verus! {

/// What the extension slot of a context holds, as far as the interface `T` can
/// be read from it.
pub enum Ext<'a, T: ?Sized> {
    /// Nothing, or something that is no `T`.
    Other,
    /// A reference to a `T`.
    Anyable(&'a mut T),
}

/// A reference to an interface, made ready to be put into a context.
pub struct Anyable<'a, T: ?Sized> {
    p: &'a mut T,
}

impl<'a, T: ?Sized> Anyable<'a, T> {
    /// The reference.
    pub closed spec fn target(&self) -> &'a mut T {
        self.p
    }

    /// Takes the reference in.
    pub fn new(r: &'a mut T) -> (anyable: Self)
        ensures
            &*anyable.target() == &*old(r),
            &*final(anyable.target()) == &*final(r),
        opens_invariants none
        no_unwind
    {
        Anyable { p: r }
    }

    /// Lends the reference, to be put into a context.
    pub fn as_any<'b>(&'b mut self) -> (ext: Ext<'b, T>)
        ensures
            ext is Anyable,
            &*ext->0 == &*old(self).target(),
            &*final(self).target() == &*final(ext->0),
            &*final(final(self).target()) == &*final(old(self).target()),
        opens_invariants none
        no_unwind
    {
        Ext::Anyable(&mut *self.p)
    }
}

/// A polling context, reduced to its extension slot.
pub struct Context<'a, T: ?Sized> {
    pub ext: Ext<'a, T>,
}

impl<'a, T: ?Sized> Context<'a, T> {
    /// A context that is rebuilt from this one, as with another waker. This one
    /// lends it what it carries.
    pub fn rebuild<'b>(&'b mut self) -> (cx: Context<'b, T>)
        ensures
            cx.ext is Anyable <==> old(self).ext is Anyable,
            cx.ext is Anyable ==> {
                &&& &*cx.ext->0 == &*old(self).ext->0
                &&& final(self).ext is Anyable
                &&& &*final(self).ext->0 == &*final(cx.ext->0)
                &&& &*final(final(self).ext->0) == &*final(old(self).ext->0)
            },
            cx.ext is Other ==> final(self).ext is Other,
        opens_invariants none
        no_unwind
    {
        let ext = match &mut self.ext {
            Ext::Other => Ext::Other,
            Ext::Anyable(p) => Ext::Anyable(&mut **p),
        };
        Context { ext }
    }

    /// Gives up the context for the `T` that it carries, if it carries one.
    pub fn downcast(self) -> (r: Option<&'a mut T>)
        ensures
            r is Some <==> self.ext is Anyable,
            r matches Some(p) ==> {
                &&& &*p == &*self.ext->0
                &&& &*final(p) == &*final(self.ext->0)
            },
        opens_invariants none
        no_unwind
    {
        match self.ext {
            Ext::Other => None,
            Ext::Anyable(p) => Some(p),
        }
    }
}

/// The `T` that the context carries, if it carries one.
///
/// What is done to it is done to the `T` that was put into the context.
pub fn ctx_downcast<'b, 'a, T: ?Sized>(cx: &'b mut Context<'a, T>) -> (r: Option<&'b mut T>)
    ensures
        r is Some <==> old(cx).ext is Anyable,
        r matches Some(p) ==> {
            &&& &*p == &*old(cx).ext->0
            &&& final(cx).ext is Anyable
            &&& &*final(cx).ext->0 == &*final(p)
            &&& &*final(final(cx).ext->0) == &*final(old(cx).ext->0)
        },
        r is None ==> final(cx).ext is Other,
    opens_invariants none
    no_unwind
{
    cx.rebuild().downcast()
}

/// Once an [`Anyable`] is used no more, what it refers to is left as it is.
pub proof fn resolved_target<'a, T: ?Sized>(anyable: Anyable<'a, T>)
    requires
        has_resolved(anyable),
    ensures
        &*anyable.target() == &*final(anyable.target()),
{
}

/// What is found in a context is what [`Anyable::new`] was given, and what is
/// done to the one found is done to the one given.
///
/// `r` goes into `anyable`, which lends `ext` to the context `cx`, where `found`
/// is found. The statement is about the time when both the context and the
/// `Anyable` are used no more.
pub proof fn lent_reference_is_found<'a, 'b, 'c, T: ?Sized>(
    r: &'a mut T,
    anyable: &'b mut Anyable<'a, T>,
    ext: Ext<'b, T>,
    cx: &'c mut Context<'b, T>,
    found: Option<&'c mut T>,
)
    requires
        call_ensures(Anyable::<'a, T>::new, (r,), *old(anyable)),
        call_ensures(Anyable::<'a, T>::as_any, (anyable,), ext),
        old(cx).ext == ext,
        call_ensures(ctx_downcast::<T>, (cx,), found),
        has_resolved(*final(cx)),
        has_resolved(*final(anyable)),
    ensures
        found is Some,
        &*found->0 == &*old(r),
        &*final(r) == &*final(found->0),
{
}

/// The same of a context that is given up for what it carries.
pub proof fn lent_reference_is_given_up<'a, 'b, T: ?Sized>(
    r: &'a mut T,
    anyable: &'b mut Anyable<'a, T>,
    cx: Context<'b, T>,
    found: Option<&'b mut T>,
)
    requires
        call_ensures(Anyable::<'a, T>::new, (r,), *old(anyable)),
        call_ensures(Anyable::<'a, T>::as_any, (anyable,), cx.ext),
        call_ensures(Context::<'b, T>::downcast, (cx,), found),
        has_resolved(*final(anyable)),
    ensures
        found is Some,
        &*found->0 == &*old(r),
        &*final(r) == &*final(found->0),
{
}

/// A context that does not carry the interface gives nothing, and goes on not
/// to carry it.
pub proof fn nothing_is_found_where_nothing_was_lent<'a, 'b, T: ?Sized>(
    cx: &'b mut Context<'a, T>,
    found: Option<&'b mut T>,
)
    requires
        old(cx).ext is Other,
        call_ensures(ctx_downcast::<T>, (cx,), found),
    ensures
        found is None,
        final(cx).ext is Other,
{
}

/// To ask a context takes nothing out of it: asked once more, it gives the same
/// answer, with the same referent as the first answer left it.
///
/// `again` is the context `cx` after the first answer is used no more.
pub proof fn asking_again_finds_the_same<'a, 'b, 'c, T: ?Sized>(
    cx: &'b mut Context<'a, T>,
    first: Option<&'b mut T>,
    again: &'c mut Context<'a, T>,
    second: Option<&'c mut T>,
)
    requires
        call_ensures(ctx_downcast::<T>, (cx,), first),
        *old(again) == *final(cx),
        call_ensures(ctx_downcast::<T>, (again,), second),
    ensures
        second is Some <==> first is Some,
        second is Some ==> {
            &&& &*second->0 == &*final(first->0)
            &&& &*final(final(again).ext->0) == &*final(old(cx).ext->0)
        },
{
}

/// A context that is rebuilt from another carries what the other carries.
///
/// `cx` lends to the context `rebuilt`, where `found` is found.
pub proof fn rebuilt_context_carries_the_same<'a, 'b, 'c, T: ?Sized>(
    cx: &'b mut Context<'a, T>,
    rebuilt: &'c mut Context<'b, T>,
    found: Option<&'c mut T>,
)
    requires
        call_ensures(Context::<'a, T>::rebuild, (cx,), *old(rebuilt)),
        call_ensures(ctx_downcast::<T>, (rebuilt,), found),
        has_resolved(*final(rebuilt)),
    ensures
        found is Some <==> old(cx).ext is Anyable,
        found is Some ==> {
            &&& &*found->0 == &*old(cx).ext->0
            &&& final(cx).ext is Anyable
            &&& &*final(cx).ext->0 == &*final(found->0)
        },
{
}

} // verus!
