//! Cancelers: handles by which another thread unblocks a waiter.
use crate::std_calls::address_of;
use crate::stock::{boxed, shared, Stock};
use std::sync::Arc;
use vstd::prelude::*;
use vstd::std_specs::convert::FromSpecImpl;

verus! {

/// The functions of a [`RawCancelerVTable`].
///
/// Each function gets the data word of the handle it works for. The table's
/// drop function is the destructor of the implementing type: it runs when the
/// last handle that shares the table is gone.
///
/// What the functions do is told by relations. An implementation that leaves
/// one out promises nothing of that function.
///
/// Each function has a bound, which is the set of invariants that it may open. An
/// implementation that leaves one out may open any. As the bounds need have
/// nothing to do with each other, whoever keeps to the bound of one function
/// calls no other: to clone a handle does not cancel anything.
pub trait CancelerFns: Send + Sync {
    /// Whether `clone`, on the data word `data`, may return `copy`.
    open spec fn clone_gives(&self, data: usize, copy: usize) -> bool {
        true
    }

    /// What is known once `cancel` has run on the data word `data`.
    open spec fn cancel_ran(&self, data: usize) -> bool {
        true
    }

    /// Bounds `clone`.
    open spec fn clone_opens(&self) -> Set<int> {
        Set::full()
    }

    /// Bounds `cancel`.
    open spec fn cancel_opens(&self) -> Set<int> {
        Set::full()
    }

    /// Makes the data word of one more handle.
    fn clone(&self, data: usize) -> (copy: usize)
        ensures
            self.clone_gives(data, copy),
        opens_invariants self.clone_opens()
    ;

    /// Unblocks the waiter.
    fn cancel(&self, data: usize)
        ensures
            self.cancel_ran(data),
        opens_invariants self.cancel_opens()
    ;
}

/// The function table of a [`RawCanceler`].
pub struct RawCancelerVTable {
    // The tuple keeps the boxed object from being coerced a second time where
    // it is moved into the field.
    fns: (Box<dyn CancelerFns>,),
    // Where the functions of a further handle come from. Without a reserve, a
    // further handle shares the table.
    reserve: Option<Arc<(Box<dyn CancelerFnsReserve>,)>>,
}

impl RawCancelerVTable {
    #[verifier::type_invariant]
    closed spec fn inv(&self) -> bool {
        self.reserve matches Some(reserve) ==> reserve.0.fns() == self.fns
    }

    /// Whether the table's clone function, on `data`, may return `copy`.
    pub closed spec fn clone_gives(&self, data: usize, copy: usize) -> bool {
        self.fns.0.clone_gives(data, copy)
    }

    /// What is known once the table's cancel function has run on `data`.
    pub closed spec fn cancel_ran(&self, data: usize) -> bool {
        self.fns.0.cancel_ran(data)
    }

    /// Bounds what it takes to make a further handle.
    pub closed spec fn clone_opens(&self) -> Set<int> {
        self.fns.0.clone_opens().union(crate::stock::housekeeping())
    }

    /// Bounds the table's cancel function.
    pub closed spec fn cancel_opens(&self) -> Set<int> {
        self.fns.0.cancel_opens()
    }

    /// A table of the functions in `fns`. None of them is called.
    pub fn new<F: CancelerFns + 'static>(fns: F) -> (table: Self)
        ensures
            forall|data: usize, copy: usize| #[trigger]
                table.clone_gives(data, copy) == fns.clone_gives(data, copy),
            forall|data: usize| #[trigger] table.cancel_ran(data) == fns.cancel_ran(data),
        opens_invariants crate::stock::housekeeping()
    {
        RawCancelerVTable { fns: (boxed(Functions { fns }),), reserve: None }
    }

    /// The table of a further handle: one with functions of its own out of the
    /// reserve or, without a reserve, this one.
    fn further(self: &Arc<Self>) -> (table: Arc<Self>)
        ensures
            table == *self,
        opens_invariants crate::stock::housekeeping()
    {
        proof {
            use_type_invariant(self);
        }
        match &self.reserve {
            Some(reserve) => match reserve.0.take() {
                Some(fns) => shared(
                    RawCancelerVTable { fns, reserve: Some(Arc::clone(reserve)) },
                ),
                None => Arc::clone(self),
            },
            None => Arc::clone(self),
        }
    }
}

/// Where the functions of further handles come from, whatever their type.
trait CancelerFnsReserve: Send + Sync {
    /// What is in the reserve, as often as it may be.
    spec fn fns(&self) -> (Box<dyn CancelerFns>,);

    /// Takes functions out of the reserve, unless there are none in it.
    fn take(&self) -> (fns: Option<(Box<dyn CancelerFns>,)>)
        ensures
            fns matches Some(fns) ==> fns == self.fns(),
        opens_invariants crate::stock::housekeeping()
    ;
}

/// Functions of any type, made ready to be boxed.
struct Functions<F> {
    fns: F,
}

impl<F: CancelerFns> CancelerFns for Functions<F> {
    closed spec fn clone_gives(&self, data: usize, copy: usize) -> bool {
        self.fns.clone_gives(data, copy)
    }

    closed spec fn cancel_ran(&self, data: usize) -> bool {
        self.fns.cancel_ran(data)
    }

    closed spec fn clone_opens(&self) -> Set<int> {
        self.fns.clone_opens()
    }

    closed spec fn cancel_opens(&self) -> Set<int> {
        self.fns.cancel_opens()
    }

    fn clone(&self, data: usize) -> (copy: usize) {
        self.fns.clone(data)
    }

    fn cancel(&self, data: usize) {
        self.fns.cancel(data)
    }
}

/// A data word together with the functions that give it a meaning.
pub struct RawCanceler {
    data: usize,
    vtable: Arc<RawCancelerVTable>,
}

impl RawCanceler {
    /// The data word.
    pub closed spec fn data(&self) -> usize {
        self.data
    }

    /// The function table.
    pub closed spec fn vtable(&self) -> RawCancelerVTable {
        *self.vtable
    }

    /// What is known once the cancel function has run on this data word.
    pub open spec fn cancel_ran(&self) -> bool {
        self.vtable().cancel_ran(self.data())
    }

    /// Whether cloning keeps the data word, so that every clone stands for the
    /// same thing.
    pub open spec fn clones_faithfully(&self) -> bool {
        forall|copy: usize| #[trigger]
            self.vtable().clone_gives(self.data(), copy) ==> copy == self.data()
    }

    /// A raw canceler of `data`, with the functions of `vtable`.
    #[inline]
    pub fn new(data: usize, vtable: Arc<RawCancelerVTable>) -> (raw: Self)
        ensures
            raw.data() == data,
            raw.vtable() == *vtable,
        opens_invariants none
        no_unwind
    {
        RawCanceler { data, vtable }
    }

    /// Runs the clone function on the data word: one more raw canceler, with the
    /// same functions.
    fn clone_raw(&self) -> (copy: Self)
        ensures
            self.vtable().clone_gives(self.data(), copy.data()),
            copy.vtable() == self.vtable(),
            self.clones_faithfully() ==> copy == *self,
        opens_invariants self.vtable().clone_opens()
    {
        let data: usize = self.vtable.fns.0.clone(self.data);
        assert(self.vtable().clone_gives(self.data(), data));
        RawCanceler { data, vtable: self.vtable.further() }
    }
}

/// A handle that unblocks the waiter it was made for.
pub struct WakerWaiterCanceler {
    inner: RawCanceler,
}

impl WakerWaiterCanceler {
    #[verifier::type_invariant]
    closed spec fn inv(&self) -> bool {
        self.inner.clones_faithfully()
    }

    /// The raw canceler that the handle owns.
    pub closed spec fn raw(&self) -> RawCanceler {
        self.inner
    }

    /// What is known once [`WakerWaiterCanceler::cancel`] has returned.
    pub open spec fn cancel_ran(&self) -> bool {
        self.raw().cancel_ran()
    }

    /// A handle that owns `inner`.
    pub(crate) fn from_raw(inner: RawCanceler) -> (canceler: Self)
        requires
            inner.clones_faithfully(),
        ensures
            canceler.raw() == inner,
        opens_invariants none
        no_unwind
    {
        WakerWaiterCanceler { inner }
    }

    /// Unblocks the waiter: runs the cancel function of the table on the data
    /// word.
    pub fn cancel(&self)
        ensures
            self.cancel_ran(),
        opens_invariants self.raw().vtable().cancel_opens()
    {
        self.inner.vtable.fns.0.cancel(self.inner.data)
    }

    /// One more handle, which cancels what this one cancels. Nothing is canceled
    /// by it.
    pub(crate) fn duplicate(&self) -> (copy: Self)
        ensures
            copy == *self,
            self.raw().vtable().clone_gives(self.raw().data(), copy.raw().data()),
        opens_invariants self.raw().vtable().clone_opens()
    {
        proof {
            use_type_invariant(self);
        }
        WakerWaiterCanceler { inner: self.inner.clone_raw() }
    }

    /// Gives up the handle for the raw canceler in it. Nothing is released.
    pub(crate) fn into_raw(self) -> (raw: RawCanceler)
        ensures
            raw == self.raw(),
            raw.clones_faithfully(),
        opens_invariants none
        no_unwind
    {
        proof {
            use_type_invariant(&self);
        }
        self.inner
    }
}

impl Clone for WakerWaiterCanceler {
    /// One more handle, which cancels what this one cancels.
    fn clone(&self) -> (copy: Self)
        ensures
            copy == *self,
            self.raw().vtable().clone_gives(self.raw().data(), copy.raw().data()),
    {
        self.duplicate()
    }
}

/// A handle is nothing but the raw canceler in it: handles of one raw canceler
/// are equal.
pub proof fn raw_determines_canceler(a: WakerWaiterCanceler, b: WakerWaiterCanceler)
    ensures
        a.raw() == b.raw() <==> a == b,
{
}

/// What a type has to offer for [`WakerWaiterCanceler`] to be made of it.
pub trait WakerWaiterCancel {
    /// Bounds `cancel`: the set of invariants that it may open. An implementation
    /// that leaves it out may open any.
    open spec fn cancel_opens(&self) -> Set<int> {
        Set::full()
    }

    /// Unblocks the waiter.
    fn cancel(self: &Arc<Self>)
        opens_invariants self.cancel_opens()
    ;
}

/// The functions of a canceler that is made of an `Arc<C>`. Every handle has its
/// own, and they own the `Arc`, so the value lives as long as any handle.
struct VTablePerType<C> {
    canceler: Arc<C>,
    stock: Arc<Stock<C>>,
}

impl<C> VTablePerType<C> {
    #[verifier::type_invariant]
    closed spec fn inv(&self) -> bool {
        self.stock.pointer() == self.canceler
    }
}

impl<C: WakerWaiterCancel + Send + Sync + 'static> CancelerFns for VTablePerType<C> {
    closed spec fn clone_gives(&self, data: usize, copy: usize) -> bool {
        copy == data
    }

    closed spec fn cancel_ran(&self, data: usize) -> bool {
        call_ensures(C::cancel, (&self.canceler,), ())
    }

    closed spec fn clone_opens(&self) -> Set<int> {
        crate::stock::housekeeping()
    }

    closed spec fn cancel_opens(&self) -> Set<int> {
        self.canceler.cancel_opens()
    }

    /// Leaves the `Arc` of the further handle in the stock.
    fn clone(&self, data: usize) -> (copy: usize) {
        proof {
            use_type_invariant(self);
        }
        self.stock.put(Arc::clone(&self.canceler));
        data
    }

    fn cancel(&self, data: usize) {
        self.canceler.cancel()
    }
}

/// What makes the functions of further handles of the `Arc`s in the stock.
struct Reserve<C> {
    stock: Arc<Stock<C>>,
}

impl<C: WakerWaiterCancel + Send + Sync + 'static> CancelerFnsReserve for Reserve<C> {
    closed spec fn fns(&self) -> (Box<dyn CancelerFns>,) {
        (Box::new(VTablePerType { canceler: self.stock.pointer(), stock: self.stock }),)
    }

    fn take(&self) -> (fns: Option<(Box<dyn CancelerFns>,)>) {
        match self.stock.take() {
            Some(canceler) => Some(
                (boxed(VTablePerType { canceler, stock: Arc::clone(&self.stock) }),),
            ),
            None => None,
        }
    }
}

/// The raw canceler of `canceler`, with `address` for its data word.
///
/// Its clones keep the data word, and its cancel function calls
/// [`WakerWaiterCancel::cancel`] on `canceler`. To make it does not.
pub fn raw_canceler_at<C: WakerWaiterCancel + Send + Sync + 'static>(
    address: usize,
    canceler: Arc<C>,
) -> (raw: RawCanceler)
    ensures
        raw.data() == address,
        forall|data: usize, copy: usize| #[trigger]
            raw.vtable().clone_gives(data, copy) == (copy == data),
        forall|data: usize| #[trigger]
            raw.vtable().cancel_ran(data) == call_ensures(C::cancel, (&canceler,), ()),
    opens_invariants crate::stock::housekeeping()
{
    let stock = shared(Stock::new(&canceler));
    let reserve: (Box<dyn CancelerFnsReserve>,) = (boxed(Reserve { stock: Arc::clone(&stock) }),);
    let vtable = RawCancelerVTable {
        fns: (boxed(VTablePerType { canceler, stock }),),
        reserve: Some(shared(reserve)),
    };
    RawCanceler::new(address, shared(vtable))
}

/// The raw canceler of `canceler`, with the place where the value lies for its
/// data word.
#[inline(always)]
pub fn raw_canceler<C: WakerWaiterCancel + Send + Sync + 'static>(canceler: Arc<C>) -> (raw:
    RawCanceler)
    ensures
        crate::std_calls::lies_at(canceler, raw.data()),
        forall|data: usize, copy: usize| #[trigger]
            raw.vtable().clone_gives(data, copy) == (copy == data),
        forall|data: usize| #[trigger]
            raw.vtable().cancel_ran(data) == call_ensures(C::cancel, (&canceler,), ()),
    opens_invariants crate::stock::housekeeping()
{
    let address: usize = address_of(&canceler);
    raw_canceler_at(address, canceler)
}

impl<C: WakerWaiterCancel + Send + Sync + 'static> From<Arc<C>> for WakerWaiterCanceler {
    /// A handle by which `canceler` is asked to cancel.
    fn from(canceler: Arc<C>) -> (handle: Self)
        ensures
            crate::std_calls::lies_at(canceler, handle.raw().data()),
            handle.cancel_ran() == call_ensures(C::cancel, (&canceler,), ()),
    {
        let inner = raw_canceler(canceler);
        WakerWaiterCanceler { inner }
    }
}

/// A clone of a handle cancels by the value behind the `Arc`: a cancel is over
/// only once [`WakerWaiterCancel::cancel`] has returned for it. Its data word is
/// the place where the value lies.
///
/// `handle` is made of `x`, and `copy` is a clone of it.
pub proof fn cancelers_stand_for_their_arc<C: WakerWaiterCancel + Send + Sync + 'static>(
    x: Arc<C>,
    handle: WakerWaiterCanceler,
    copy: WakerWaiterCanceler,
)
    requires
        call_ensures(<WakerWaiterCanceler as From<Arc<C>>>::from, (x,), handle),
        call_ensures(<WakerWaiterCanceler as Clone>::clone, (&handle,), copy),
    ensures
        call_ensures(crate::std_calls::arc_address::<C>, (&x,), copy.raw().data()),
        call_ensures(WakerWaiterCanceler::cancel, (&copy,), ()) ==> call_ensures(
            C::cancel,
            (&x,),
            (),
        ),
{
}

impl<C: WakerWaiterCancel + Send + Sync + 'static> FromSpecImpl<Arc<C>> for WakerWaiterCanceler {
    /// The handle holds an address, so it is no function of the value behind
    /// the `Arc`; the contract of `from` says what holds of it.
    open spec fn obeys_from_spec() -> bool {
        false
    }

    open spec fn from_spec(canceler: Arc<C>) -> Self {
        arbitrary()
    }
}

} // verus!
