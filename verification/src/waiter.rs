//! Waiters: handles by which the thread that polls futures blocks until there
//! is something to do.
use crate::canceler::{RawCanceler, WakerWaiterCanceler};
use crate::std_calls::{address_of, type_id_eq, type_id_of};
use crate::stock::{boxed, shared, Stock};
use std::any::TypeId;
use std::marker::PhantomData;
use std::rc::Rc;
use std::sync::Arc;
use vstd::pervasive::unreached;
use vstd::prelude::*;
use vstd::std_specs::cmp::PartialEqSpecImpl;
use vstd::std_specs::convert::FromSpecImpl;

verus! {

/// The functions of a [`RawWaiterVTable`].
///
/// Each function gets the data word of the handle it works for. The table's
/// drop function is the destructor of the implementing type: it runs when the
/// last handle that shares the table is gone.
///
/// What the functions do is told by relations. An implementation that leaves
/// one out promises nothing of that function.
///
/// Each function has a bound, which is the set of invariants that it may open. An
/// implementation that leaves one out may open any. As the bounds need have
/// nothing to do with each other, whoever keeps to the bound of one function
/// calls no other: to ask for a canceler, or to clone a handle, does not wait.
pub trait WaiterFns: Send + Sync {
    /// Whether `clone`, on the data word `data`, may return `copy`.
    open spec fn clone_gives(&self, data: usize, copy: usize) -> bool {
        true
    }

    /// What is known once `wait` has run on the data word `data`.
    open spec fn wait_ran(&self, data: usize) -> bool {
        true
    }

    /// Whether `canceler`, on the data word `data`, may return `raw`.
    open spec fn canceler_gives(&self, data: usize, raw: Option<RawCanceler>) -> bool {
        true
    }

    /// Bounds `clone`.
    open spec fn clone_opens(&self) -> Set<int> {
        Set::full()
    }

    /// Bounds `wait`.
    open spec fn wait_opens(&self) -> Set<int> {
        Set::full()
    }

    /// Bounds `canceler`.
    open spec fn canceler_opens(&self) -> Set<int> {
        Set::full()
    }

    /// Makes the data word of one more handle.
    fn clone(&self, data: usize) -> (copy: usize)
        ensures
            self.clone_gives(data, copy),
        opens_invariants self.clone_opens()
    ;

    /// Blocks until there is something to do, or until the wait is canceled.
    fn wait(&self, data: usize)
        ensures
            self.wait_ran(data),
        opens_invariants self.wait_opens()
    ;

    /// What unblocks `wait`, if anything does.
    fn canceler(&self, data: usize) -> (raw: Option<RawCanceler>)
        ensures
            self.canceler_gives(data, raw),
        opens_invariants self.canceler_opens()
    ;
}

/// The function table of a [`RawWaiter`].
///
/// Tables are told apart by the type that their functions belong to: those with
/// the functions of one type are the same.
pub struct RawWaiterVTable {
    id: TypeId,
    // The tuple keeps the boxed object from being coerced a second time where
    // it is moved into the field.
    fns: (Box<dyn WaiterFns>,),
    // Where the functions of a further handle come from. Without a reserve, a
    // further handle shares the table.
    reserve: Option<Arc<(Box<dyn WaiterFnsReserve>,)>>,
}

impl RawWaiterVTable {
    #[verifier::type_invariant]
    closed spec fn inv(&self) -> bool {
        self.reserve matches Some(reserve) ==> reserve.0.fns() == self.fns
    }

    /// The identifier of the type that the functions belong to.
    pub closed spec fn id(&self) -> TypeId {
        self.id
    }

    /// Whether the table's clone function, on `data`, may return `copy`.
    pub closed spec fn clone_gives(&self, data: usize, copy: usize) -> bool {
        self.fns.0.clone_gives(data, copy)
    }

    /// What is known once the table's wait function has run on `data`.
    pub closed spec fn wait_ran(&self, data: usize) -> bool {
        self.fns.0.wait_ran(data)
    }

    /// Whether the table's canceler function, on `data`, may return `raw`.
    pub closed spec fn canceler_gives(&self, data: usize, raw: Option<RawCanceler>) -> bool {
        self.fns.0.canceler_gives(data, raw)
    }

    /// Bounds what it takes to make a further handle.
    pub closed spec fn clone_opens(&self) -> Set<int> {
        self.fns.0.clone_opens().union(crate::stock::housekeeping())
    }

    /// Bounds the table's wait function.
    pub closed spec fn wait_opens(&self) -> Set<int> {
        self.fns.0.wait_opens()
    }

    /// Bounds the table's canceler function.
    pub closed spec fn canceler_opens(&self) -> Set<int> {
        self.fns.0.canceler_opens()
    }

    /// Whether the functions of the two tables belong to one type.
    pub open spec fn same_as(&self, other: &Self) -> bool {
        self.id() == other.id()
    }

    /// A table of the functions in `fns`. None of them is called.
    pub fn new<F: WaiterFns + 'static>(fns: F) -> (table: Self)
        ensures
            crate::std_calls::is_id_of::<F>(table.id()),
            forall|data: usize, copy: usize| #[trigger]
                table.clone_gives(data, copy) == fns.clone_gives(data, copy),
            forall|data: usize| #[trigger] table.wait_ran(data) == fns.wait_ran(data),
            forall|data: usize, raw: Option<RawCanceler>| #[trigger]
                table.canceler_gives(data, raw) == fns.canceler_gives(data, raw),
        opens_invariants crate::stock::housekeeping()
    {
        let id = type_id_of::<F>();
        RawWaiterVTable { id, fns: (boxed(Functions { fns }),), reserve: None }
    }

    /// Whether the functions of the two tables belong to one type. None of the
    /// functions is called.
    fn is(&self, other: &Self) -> (same: bool)
        ensures
            same == self.same_as(other),
        opens_invariants none
        no_unwind
    {
        type_id_eq(&self.id, &other.id)
    }

    /// The table of a further handle: one with functions of its own out of the
    /// reserve or, without a reserve, this one.
    fn further(self: &Arc<Self>) -> (table: Arc<Self>)
        ensures
            table == *self,
        opens_invariants crate::stock::housekeeping()
    {
        proof {
            use_type_invariant(self);
        }
        match &self.reserve {
            Some(reserve) => match reserve.0.take() {
                Some(fns) => shared(
                    RawWaiterVTable { id: self.id, fns, reserve: Some(Arc::clone(reserve)) },
                ),
                None => Arc::clone(self),
            },
            None => Arc::clone(self),
        }
    }
}

/// Where the functions of further handles come from, whatever their type.
trait WaiterFnsReserve: Send + Sync {
    /// What is in the reserve, as often as it may be.
    spec fn fns(&self) -> (Box<dyn WaiterFns>,);

    /// Takes functions out of the reserve, unless there are none in it.
    fn take(&self) -> (fns: Option<(Box<dyn WaiterFns>,)>)
        ensures
            fns matches Some(fns) ==> fns == self.fns(),
        opens_invariants crate::stock::housekeeping()
    ;
}

/// Functions of any type, made ready to be boxed.
struct Functions<F> {
    fns: F,
}

impl<F: WaiterFns> WaiterFns for Functions<F> {
    closed spec fn clone_gives(&self, data: usize, copy: usize) -> bool {
        self.fns.clone_gives(data, copy)
    }

    closed spec fn wait_ran(&self, data: usize) -> bool {
        self.fns.wait_ran(data)
    }

    closed spec fn canceler_gives(&self, data: usize, raw: Option<RawCanceler>) -> bool {
        self.fns.canceler_gives(data, raw)
    }

    closed spec fn clone_opens(&self) -> Set<int> {
        self.fns.clone_opens()
    }

    closed spec fn wait_opens(&self) -> Set<int> {
        self.fns.wait_opens()
    }

    closed spec fn canceler_opens(&self) -> Set<int> {
        self.fns.canceler_opens()
    }

    fn clone(&self, data: usize) -> (copy: usize) {
        self.fns.clone(data)
    }

    fn wait(&self, data: usize) {
        self.fns.wait(data)
    }

    fn canceler(&self, data: usize) -> (raw: Option<RawCanceler>) {
        self.fns.canceler(data)
    }
}

/// Tables of the functions of one type are the same, whatever is in the values
/// of that type.
///
/// `a` and `b` are what [`RawWaiterVTable::new`] makes of `f` and `g`.
pub proof fn tables_of_one_type_are_the_same<F: WaiterFns + 'static>(
    f: F,
    g: F,
    a: RawWaiterVTable,
    b: RawWaiterVTable,
)
    requires
        call_ensures(RawWaiterVTable::new::<F>, (f,), a),
        call_ensures(RawWaiterVTable::new::<F>, (g,), b),
    ensures
        call_ensures(std::any::TypeId::of::<F>, (), a.id()),
        a.id() == b.id(),
        a.same_as(&b),
{
}

impl PartialEq for RawWaiterVTable {
    fn eq(&self, other: &Self) -> (same: bool) {
        self.is(other)
    }
}

impl PartialEqSpecImpl for RawWaiterVTable {
    open spec fn obeys_eq_spec() -> bool {
        true
    }

    open spec fn eq_spec(&self, other: &Self) -> bool {
        self.same_as(other)
    }
}

/// A data word together with the functions that give it a meaning.
pub struct RawWaiter {
    data: usize,
    vtable: Arc<RawWaiterVTable>,
}

impl RawWaiter {
    /// The data word.
    pub closed spec fn data(&self) -> usize {
        self.data
    }

    /// The function table.
    pub closed spec fn vtable(&self) -> RawWaiterVTable {
        *self.vtable
    }

    /// What is known once the wait function has run on this data word.
    pub open spec fn wait_ran(&self) -> bool {
        self.vtable().wait_ran(self.data())
    }

    /// Whether the canceler function, on this data word, may return `raw`.
    pub open spec fn canceler_gives(&self, raw: Option<RawCanceler>) -> bool {
        self.vtable().canceler_gives(self.data(), raw)
    }

    /// Whether cloning keeps the data word, so that every clone stands for the
    /// same thing.
    pub open spec fn clones_faithfully(&self) -> bool {
        forall|copy: usize| #[trigger]
            self.vtable().clone_gives(self.data(), copy) ==> copy == self.data()
    }

    /// Whether every canceler that is handed out clones faithfully.
    pub open spec fn cancelers_clone_faithfully(&self) -> bool {
        forall|raw: RawCanceler| #[trigger]
            self.canceler_gives(Some(raw)) ==> raw.clones_faithfully()
    }

    /// Whether the two raw waiters stand for one thing: the data words are equal
    /// and the tables the same.
    pub open spec fn same_as(&self, other: &Self) -> bool {
        self.data() == other.data() && self.vtable().same_as(&other.vtable())
    }

    /// A raw waiter of `data`, with the functions of `vtable`.
    #[inline]
    pub fn new(data: usize, vtable: Arc<RawWaiterVTable>) -> (raw: Self)
        ensures
            raw.data() == data,
            raw.vtable() == *vtable,
        opens_invariants none
        no_unwind
    {
        RawWaiter { data, vtable }
    }

    /// Whether the two raw waiters stand for one thing. No function of their
    /// tables is called.
    fn is(&self, other: &Self) -> (same: bool)
        ensures
            same == self.same_as(other),
        opens_invariants none
        no_unwind
    {
        self.data == other.data && self.vtable.is(&*other.vtable)
    }

    /// Runs the clone function on the data word: one more raw waiter, with the
    /// same functions.
    fn clone_raw(&self) -> (copy: Self)
        ensures
            self.vtable().clone_gives(self.data(), copy.data()),
            copy.vtable() == self.vtable(),
            self.clones_faithfully() ==> copy == *self,
        opens_invariants self.vtable().clone_opens()
    {
        let data: usize = self.vtable.fns.0.clone(self.data);
        assert(self.vtable().clone_gives(self.data(), data));
        RawWaiter { data, vtable: self.vtable.further() }
    }

    /// Runs the wait function on the data word.
    fn wait(&self)
        ensures
            self.wait_ran(),
        opens_invariants self.vtable().wait_opens()
    {
        self.vtable.fns.0.wait(self.data)
    }

    /// Runs the canceler function on the data word.
    fn canceler(&self) -> (raw: Option<RawCanceler>)
        ensures
            self.canceler_gives(raw),
        opens_invariants self.vtable().canceler_opens()
    {
        self.vtable.fns.0.canceler(self.data)
    }
}

impl PartialEq for RawWaiter {
    fn eq(&self, other: &Self) -> (same: bool) {
        self.is(other)
    }
}

impl PartialEqSpecImpl for RawWaiter {
    open spec fn obeys_eq_spec() -> bool {
        true
    }

    open spec fn eq_spec(&self, other: &Self) -> bool {
        self.same_as(other)
    }
}

/// A handle by which the thread that polls futures blocks, which may be sent
/// to and shared with other threads.
pub struct WakerWaiter {
    inner: RawWaiter,
}

impl WakerWaiter {
    #[verifier::type_invariant]
    closed spec fn inv(&self) -> bool {
        &&& self.inner.clones_faithfully()
        &&& self.inner.cancelers_clone_faithfully()
        &&& !self.inner.canceler_gives(None)
    }

    /// The raw waiter that the handle owns.
    pub closed spec fn raw(&self) -> RawWaiter {
        self.inner
    }

    /// Whether the two handles are of one waiter.
    pub open spec fn same_as(&self, other: &Self) -> bool {
        self.raw().same_as(&other.raw())
    }

    /// What is known once [`WakerWaiter::wait`] has returned.
    pub open spec fn wait_ran(&self) -> bool {
        self.raw().wait_ran()
    }

    /// Whether `canceler` is one that unblocks this waiter: one that
    /// [`WakerWaiter::canceler`] may return.
    pub open spec fn has_canceler(&self, canceler: WakerWaiterCanceler) -> bool {
        self.raw().canceler_gives(Some(canceler.raw()))
    }

    /// Blocks until there is something to do, or until the wait is canceled.
    pub fn wait(&self)
        ensures
            self.wait_ran(),
        opens_invariants self.raw().vtable().wait_opens()
    {
        self.inner.wait()
    }

    /// What unblocks [`WakerWaiter::wait`]. To ask for it does not wait.
    pub fn canceler(&self) -> (canceler: WakerWaiterCanceler)
        ensures
            self.has_canceler(canceler),
        opens_invariants self.raw().vtable().canceler_opens()
    {
        proof {
            use_type_invariant(self);
        }
        match self.inner.canceler() {
            Some(raw) => WakerWaiterCanceler::from_raw(raw),
            None => unreached(),
        }
    }

    /// One more handle of the same waiter. To make it does not wait.
    pub(crate) fn duplicate(&self) -> (copy: Self)
        ensures
            copy == *self,
            self.raw().vtable().clone_gives(self.raw().data(), copy.raw().data()),
        opens_invariants self.raw().vtable().clone_opens()
    {
        proof {
            use_type_invariant(self);
        }
        WakerWaiter { inner: self.inner.clone_raw() }
    }

    /// Whether the two handles are of one waiter. To tell, no function of the
    /// waiters is called: nothing is waited for, canceled or cloned.
    pub(crate) fn is(&self, other: &Self) -> (same: bool)
        ensures
            same == self.same_as(other),
        opens_invariants none
        no_unwind
    {
        self.inner.is(&other.inner)
    }

    /// Turns the handle into one that stays on its thread. Nothing is released:
    /// the raw waiter changes hands, and no function of it is called.
    pub fn to_local(self) -> (local: LocalWakerWaiter)
        ensures
            local.raw() == self.raw(),
            !local.raw().canceler_gives(None),
        opens_invariants none
        no_unwind
    {
        proof {
            use_type_invariant(&self);
        }
        LocalWakerWaiter { inner: self.inner, thread_bound: PhantomData }
    }
}

impl PartialEq for WakerWaiter {
    fn eq(&self, other: &Self) -> (same: bool) {
        self.inner.is(&other.inner)
    }
}

impl PartialEqSpecImpl for WakerWaiter {
    open spec fn obeys_eq_spec() -> bool {
        true
    }

    open spec fn eq_spec(&self, other: &Self) -> bool {
        self.same_as(other)
    }
}

impl Clone for WakerWaiter {
    /// One more handle of the same waiter.
    fn clone(&self) -> (copy: Self)
        ensures
            copy == *self,
            self.raw().vtable().clone_gives(self.raw().data(), copy.raw().data()),
    {
        self.duplicate()
    }
}

/// A handle by which the thread that polls futures blocks, and which stays on
/// that thread. It need not offer a canceler.
pub struct LocalWakerWaiter {
    inner: RawWaiter,
    // An `Rc` can neither be sent nor shared, and so neither can the handle.
    thread_bound: PhantomData<Rc<()>>,
}

impl LocalWakerWaiter {
    #[verifier::type_invariant]
    closed spec fn inv(&self) -> bool {
        &&& self.inner.clones_faithfully()
        &&& self.inner.cancelers_clone_faithfully()
    }

    /// The raw waiter that the handle owns.
    pub closed spec fn raw(&self) -> RawWaiter {
        self.inner
    }

    /// Whether the two handles are of one waiter.
    pub open spec fn same_as(&self, other: &Self) -> bool {
        self.raw().same_as(&other.raw())
    }

    /// What is known once [`LocalWakerWaiter::wait`] has returned.
    pub open spec fn wait_ran(&self) -> bool {
        self.raw().wait_ran()
    }

    /// Blocks until there is something to do, or until the wait is canceled.
    pub fn wait(&self)
        ensures
            self.wait_ran(),
        opens_invariants self.raw().vtable().wait_opens()
    {
        self.inner.wait()
    }

    /// What unblocks [`LocalWakerWaiter::wait`], if anything does. To ask for it
    /// does not wait.
    pub fn canceler(&self) -> (canceler: Option<WakerWaiterCanceler>)
        ensures
            match canceler {
                Some(canceler) => self.raw().canceler_gives(Some(canceler.raw())),
                None => self.raw().canceler_gives(None),
            },
        opens_invariants self.raw().vtable().canceler_opens()
    {
        proof {
            use_type_invariant(self);
        }
        match self.inner.canceler() {
            Some(raw) => Some(WakerWaiterCanceler::from_raw(raw)),
            None => None,
        }
    }

    /// One more handle of the same waiter. To make it does not wait.
    fn duplicate(&self) -> (copy: Self)
        ensures
            copy == *self,
            self.raw().vtable().clone_gives(self.raw().data(), copy.raw().data()),
        opens_invariants self.raw().vtable().clone_opens()
    {
        proof {
            use_type_invariant(self);
        }
        LocalWakerWaiter { inner: self.inner.clone_raw(), thread_bound: PhantomData }
    }
}

impl PartialEq for LocalWakerWaiter {
    fn eq(&self, other: &Self) -> (same: bool) {
        self.inner.is(&other.inner)
    }
}

impl PartialEqSpecImpl for LocalWakerWaiter {
    open spec fn obeys_eq_spec() -> bool {
        true
    }

    open spec fn eq_spec(&self, other: &Self) -> bool {
        self.same_as(other)
    }
}

impl Clone for LocalWakerWaiter {
    /// One more handle of the same waiter.
    fn clone(&self) -> (copy: Self)
        ensures
            copy == *self,
            self.raw().vtable().clone_gives(self.raw().data(), copy.raw().data()),
    {
        self.duplicate()
    }
}

/// Handles compare equal exactly if they have one data word and functions of one
/// type. So do local handles, and so do raw waiters.
///
/// `same` is what comparing `a` and `b` gives, `local_same` and `raw_same` the
/// same of the others.
pub proof fn handles_compare_by_data_and_type(
    a: WakerWaiter,
    b: WakerWaiter,
    same: bool,
    local_a: LocalWakerWaiter,
    local_b: LocalWakerWaiter,
    local_same: bool,
    raw_a: RawWaiter,
    raw_b: RawWaiter,
    raw_same: bool,
)
    requires
        call_ensures(<WakerWaiter as PartialEq>::eq, (&a, &b), same),
        call_ensures(<LocalWakerWaiter as PartialEq>::eq, (&local_a, &local_b), local_same),
        call_ensures(<RawWaiter as PartialEq>::eq, (&raw_a, &raw_b), raw_same),
    ensures
        same <==> a.raw().data() == b.raw().data() && a.raw().vtable().id()
            == b.raw().vtable().id(),
        local_same <==> local_a.raw().data() == local_b.raw().data()
            && local_a.raw().vtable().id() == local_b.raw().vtable().id(),
        raw_same <==> raw_a.data() == raw_b.data() && raw_a.vtable().id() == raw_b.vtable().id(),
{
}

/// To be of one waiter is an equivalence among handles.
pub proof fn sameness_is_an_equivalence(a: WakerWaiter, b: WakerWaiter, c: WakerWaiter)
    ensures
        a.same_as(&a),
        a.same_as(&b) == b.same_as(&a),
        a.same_as(&b) && b.same_as(&c) ==> a.same_as(&c),
{
}

/// Two handles are of one waiter exactly if their local forms are.
///
/// `local_a` and `local_b` are what [`WakerWaiter::to_local`] makes of `a` and `b`.
pub proof fn local_handles_keep_sameness(
    a: WakerWaiter,
    b: WakerWaiter,
    local_a: LocalWakerWaiter,
    local_b: LocalWakerWaiter,
)
    requires
        local_a.raw() == a.raw(),
        local_b.raw() == b.raw(),
    ensures
        local_a.same_as(&local_b) == a.same_as(&b),
{
}

/// What a type has to offer for [`WakerWaiter`] to be made of it.
pub trait WakerWait {
    /// Bounds `wait`: the set of invariants that it may open. An implementation
    /// that leaves it out may open any.
    open spec fn wait_opens(&self) -> Set<int> {
        Set::full()
    }

    /// Bounds `canceler` in the same way.
    open spec fn canceler_opens(&self) -> Set<int> {
        Set::full()
    }

    /// Blocks until there is something to do, or until the wait is canceled.
    fn wait(self: &Arc<Self>)
        opens_invariants self.wait_opens()
    ;

    /// What unblocks [`WakerWait::wait`].
    fn canceler(self: &Arc<Self>) -> WakerWaiterCanceler
        opens_invariants self.canceler_opens()
    ;
}

/// Whether `raw` is a canceler that `waiter` may hand out.
pub open spec fn hands_out<W: WakerWait>(waiter: Arc<W>, raw: Option<RawCanceler>) -> bool {
    exists|canceler: WakerWaiterCanceler| #[trigger]
        call_ensures(W::canceler, (&waiter,), canceler) && raw == Some(canceler.raw())
            && canceler.raw().clones_faithfully()
}

/// The functions of a waiter that is made of an `Arc<W>`. Every handle has its
/// own, and they own the `Arc`, so the value lives as long as any handle.
pub struct VTablePerType<W> {
    waiter: Arc<W>,
    stock: Arc<Stock<W>>,
}

impl<W> VTablePerType<W> {
    #[verifier::type_invariant]
    closed spec fn inv(&self) -> bool {
        self.stock.pointer() == self.waiter
    }
}

impl<W: WakerWait + Send + Sync + 'static> WaiterFns for VTablePerType<W> {
    closed spec fn clone_gives(&self, data: usize, copy: usize) -> bool {
        copy == data
    }

    closed spec fn wait_ran(&self, data: usize) -> bool {
        call_ensures(W::wait, (&self.waiter,), ())
    }

    closed spec fn canceler_gives(&self, data: usize, raw: Option<RawCanceler>) -> bool {
        hands_out(self.waiter, raw)
    }

    closed spec fn clone_opens(&self) -> Set<int> {
        crate::stock::housekeeping()
    }

    closed spec fn wait_opens(&self) -> Set<int> {
        self.waiter.wait_opens()
    }

    closed spec fn canceler_opens(&self) -> Set<int> {
        self.waiter.canceler_opens()
    }

    /// Leaves the `Arc` of the further handle in the stock.
    fn clone(&self, data: usize) -> (copy: usize) {
        proof {
            use_type_invariant(self);
        }
        self.stock.put(Arc::clone(&self.waiter));
        data
    }

    fn wait(&self, data: usize) {
        self.waiter.wait()
    }

    fn canceler(&self, data: usize) -> (raw: Option<RawCanceler>) {
        let canceler = self.waiter.canceler();
        Some(canceler.into_raw())
    }
}

/// What makes the functions of further handles of the `Arc`s in the stock.
struct Reserve<W> {
    stock: Arc<Stock<W>>,
}

impl<W: WakerWait + Send + Sync + 'static> WaiterFnsReserve for Reserve<W> {
    closed spec fn fns(&self) -> (Box<dyn WaiterFns>,) {
        (Box::new(VTablePerType { waiter: self.stock.pointer(), stock: self.stock }),)
    }

    fn take(&self) -> (fns: Option<(Box<dyn WaiterFns>,)>) {
        match self.stock.take() {
            Some(waiter) => Some(
                (boxed(VTablePerType { waiter, stock: Arc::clone(&self.stock) }),),
            ),
            None => None,
        }
    }
}

/// Whether `id` is the identifier of the functions of the waiters that are made
/// of an `Arc<W>`.
pub open spec fn identifies<W: 'static>(id: TypeId) -> bool {
    crate::std_calls::is_id_of::<VTablePerType<W>>(id)
}

/// The raw waiter of `waiter`, with `address` for its data word, and the
/// functions that belong to its type.
///
/// Its clones keep the data word, its wait function calls [`WakerWait::wait`]
/// on `waiter`, and its canceler function always hands out what
/// [`WakerWait::canceler`] returns for `waiter`. To make it calls neither.
pub fn raw_waiter_at<W: WakerWait + Send + Sync + 'static>(address: usize, waiter: Arc<W>) -> (raw:
    RawWaiter)
    ensures
        raw.data() == address,
        identifies::<W>(raw.vtable().id()),
        forall|data: usize, copy: usize| #[trigger]
            raw.vtable().clone_gives(data, copy) == (copy == data),
        forall|data: usize| #[trigger]
            raw.vtable().wait_ran(data) == call_ensures(W::wait, (&waiter,), ()),
        forall|data: usize, canceler: Option<RawCanceler>| #[trigger]
            raw.vtable().canceler_gives(data, canceler) == hands_out(waiter, canceler),
    opens_invariants crate::stock::housekeeping()
{
    let id = type_id_of::<VTablePerType<W>>();
    let stock = shared(Stock::new(&waiter));
    let reserve: (Box<dyn WaiterFnsReserve>,) = (boxed(Reserve { stock: Arc::clone(&stock) }),);
    let vtable = RawWaiterVTable {
        id,
        fns: (boxed(VTablePerType { waiter, stock }),),
        reserve: Some(shared(reserve)),
    };
    RawWaiter::new(address, shared(vtable))
}

/// The raw waiter of `waiter`, with the place where the value lies for its data
/// word, and the functions that belong to its type.
#[inline(always)]
pub fn raw_waiter<W: WakerWait + Send + Sync + 'static>(waiter: Arc<W>) -> (raw: RawWaiter)
    ensures
        crate::std_calls::lies_at(waiter, raw.data()),
        identifies::<W>(raw.vtable().id()),
        forall|data: usize, copy: usize| #[trigger]
            raw.vtable().clone_gives(data, copy) == (copy == data),
        forall|data: usize| #[trigger]
            raw.vtable().wait_ran(data) == call_ensures(W::wait, (&waiter,), ()),
        forall|data: usize, canceler: Option<RawCanceler>| #[trigger]
            raw.vtable().canceler_gives(data, canceler) == hands_out(waiter, canceler),
    opens_invariants crate::stock::housekeeping()
{
    let address: usize = address_of(&waiter);
    raw_waiter_at(address, waiter)
}

impl<W: WakerWait + Send + Sync + 'static> From<Arc<W>> for WakerWaiter {
    /// A handle by which a thread blocks on `waiter`.
    fn from(waiter: Arc<W>) -> (handle: Self)
        ensures
            crate::std_calls::lies_at(waiter, handle.raw().data()),
            identifies::<W>(handle.raw().vtable().id()),
            handle.wait_ran() == call_ensures(W::wait, (&waiter,), ()),
            forall|canceler: WakerWaiterCanceler| #[trigger]
                handle.has_canceler(canceler) <==> call_ensures(
                    W::canceler,
                    (&waiter,),
                    canceler,
                ) && canceler.raw().clones_faithfully(),
    {
        let ghost source = waiter;
        let inner = raw_waiter(waiter);
        proof {
            assert forall|canceler: WakerWaiterCanceler|
                hands_out(source, Some(canceler.raw())) implies call_ensures(
                W::canceler,
                (&source,),
                canceler,
            ) by {
                let other = choose|other: WakerWaiterCanceler| #[trigger]
                    call_ensures(W::canceler, (&source,), other) && canceler.raw() == other.raw();
                crate::canceler::raw_determines_canceler(canceler, other);
            }
        }
        WakerWaiter { inner }
    }
}

/// Of the handles that are made of `Arc`s of one type, those are of one waiter
/// that have one data word, which is the place where the value lies. All have
/// the identifier of the functions of that type.
///
/// `a` and `b` are handles that are made of `x` and `y`.
pub proof fn handles_of_one_type_are_told_apart_by_place<W: WakerWait + Send + Sync + 'static>(
    x: Arc<W>,
    y: Arc<W>,
    a: WakerWaiter,
    b: WakerWaiter,
)
    requires
        call_ensures(<WakerWaiter as From<Arc<W>>>::from, (x,), a),
        call_ensures(<WakerWaiter as From<Arc<W>>>::from, (y,), b),
    ensures
        call_ensures(crate::std_calls::arc_address::<W>, (&x,), a.raw().data()),
        call_ensures(crate::std_calls::arc_address::<W>, (&y,), b.raw().data()),
        call_ensures(std::any::TypeId::of::<VTablePerType<W>>, (), a.raw().vtable().id()),
        a.raw().vtable().id() == b.raw().vtable().id(),
        a.same_as(&b) <==> a.raw().data() == b.raw().data(),
{
}

/// Handles that are made of two `Arc`s of one type are of one waiter only if the
/// two values lie at one place: a single address was given for both.
///
/// `a` and `b` are handles that are made of `x` and `y`.
pub proof fn handles_of_one_waiter_share_its_place<W: WakerWait + Send + Sync + 'static>(
    x: Arc<W>,
    y: Arc<W>,
    a: WakerWaiter,
    b: WakerWaiter,
)
    requires
        call_ensures(<WakerWaiter as From<Arc<W>>>::from, (x,), a),
        call_ensures(<WakerWaiter as From<Arc<W>>>::from, (y,), b),
        a.same_as(&b),
    ensures
        exists|address: usize|
            #![trigger call_ensures(crate::std_calls::arc_address::<W>, (&x,), address)]
            call_ensures(crate::std_calls::arc_address::<W>, (&x,), address) && call_ensures(
                crate::std_calls::arc_address::<W>,
                (&y,),
                address,
            ),
{
    handles_of_one_type_are_told_apart_by_place(x, y, a, b);
}

/// A clone of a handle, and its local form, do what the value behind the `Arc`
/// does: a wait is over only once [`WakerWait::wait`] has returned for it, and a
/// canceler is always handed out and is one that [`WakerWait::canceler`] returned
/// for it.
///
/// `handle` is made of `x`, `copy` is a clone of it, and `local` is the local form
/// of the clone. `sent` is what `copy` hands out, `canceler` what `local` does.
pub proof fn handles_stand_for_their_arc<W: WakerWait + Send + Sync + 'static>(
    x: Arc<W>,
    handle: WakerWaiter,
    copy: WakerWaiter,
    sent: WakerWaiterCanceler,
    local: LocalWakerWaiter,
    canceler: Option<WakerWaiterCanceler>,
)
    requires
        call_ensures(<WakerWaiter as From<Arc<W>>>::from, (x,), handle),
        call_ensures(<WakerWaiter as Clone>::clone, (&handle,), copy),
        call_ensures(WakerWaiter::canceler, (&copy,), sent),
        call_ensures(WakerWaiter::to_local, (copy,), local),
        call_ensures(LocalWakerWaiter::canceler, (&local,), canceler),
    ensures
        handle.same_as(&copy),
        call_ensures(WakerWaiter::wait, (&copy,), ()) ==> call_ensures(W::wait, (&x,), ()),
        call_ensures(LocalWakerWaiter::wait, (&local,), ()) ==> call_ensures(W::wait, (&x,), ()),
        call_ensures(W::canceler, (&x,), sent),
        canceler is Some,
        call_ensures(W::canceler, (&x,), canceler->0),
{
    assert(handle.has_canceler(sent));
    assert(handle.has_canceler(canceler->0));
}

impl<W: WakerWait + Send + Sync + 'static> FromSpecImpl<Arc<W>> for WakerWaiter {
    /// The handle holds an address, so it is no function of the value behind
    /// the `Arc`; the contract of `from` says what holds of it.
    open spec fn obeys_from_spec() -> bool {
        false
    }

    open spec fn from_spec(waiter: Arc<W>) -> Self {
        arbitrary()
    }
}

} // verus!
