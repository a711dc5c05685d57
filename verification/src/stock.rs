//! Memory that handles allocate and share. In it is a stock of pointers to one
//! value, by which whoever owns such a pointer hands further ones on to those who
//! do not know the type of the value.
use std::sync::Arc;
use vstd::prelude::*;
use vstd::rwlock::{RwLock, RwLockPredicate};

verus! {

/// Bounds what is done for memory's sake alone: the invariants that may be opened
/// for it.
///
/// Which they are is not told, so a function that keeps to this bound calls, of
/// all that is bounded otherwise or not at all, nothing: no function of a waiter
/// or of a canceler.
pub closed spec fn housekeeping() -> Set<int> {
    Set::full()
}

/// Moves `value` into a box.
pub(crate) fn boxed<T>(value: T) -> (pointer: Box<T>)
    ensures
        *pointer == value,
    opens_invariants housekeeping()
{
    Box::new(value)
}

/// Moves `value` to where pointers share it.
pub(crate) fn shared<T>(value: T) -> (pointer: Arc<T>)
    ensures
        *pointer == value,
    opens_invariants housekeeping()
{
    Arc::new(value)
}

/// What holds of the pointers in a stock: each is equal to `pointer`.
pub struct AllEqual<T> {
    pointer: Ghost<Arc<T>>,
}

impl<T> RwLockPredicate<Vec<Arc<T>>> for AllEqual<T> {
    closed spec fn inv(self, pointers: Vec<Arc<T>>) -> bool {
        forall|i: int| 0 <= i < pointers@.len() ==> #[trigger] pointers@[i] == self.pointer@
    }
}

/// A stock of pointers to one value, which threads may share.
pub(crate) struct Stock<T> {
    pointers: RwLock<Vec<Arc<T>>, AllEqual<T>>,
}

impl<T> Stock<T> {
    /// What the pointers in the stock are equal to.
    pub closed spec fn pointer(&self) -> Arc<T> {
        self.pointers.pred().pointer@
    }

    /// A stock for pointers such as `pointer`, with none in it.
    pub(crate) fn new(pointer: &Arc<T>) -> (stock: Self)
        ensures
            stock.pointer() == *pointer,
        opens_invariants housekeeping()
    {
        let ghost all = AllEqual { pointer: Ghost(*pointer) };
        Stock { pointers: RwLock::new(Vec::new(), Ghost(all)) }
    }

    /// Puts `pointer` into the stock.
    pub(crate) fn put(&self, pointer: Arc<T>)
        requires
            pointer == self.pointer(),
        opens_invariants housekeeping()
    {
        let (mut pointers, guard) = self.pointers.acquire_write();
        pointers.push(pointer);
        guard.release_write(pointers);
    }

    /// Takes a pointer out of the stock, unless there is none in it.
    pub(crate) fn take(&self) -> (taken: Option<Arc<T>>)
        ensures
            taken matches Some(pointer) ==> pointer == self.pointer(),
        opens_invariants housekeeping()
    {
        let (mut pointers, guard) = self.pointers.acquire_write();
        let taken = pointers.pop();
        if pointers.len() == 0 {
            // The lock does not release what it holds when it goes, so an empty
            // stock keeps no memory.
            guard.release_write(Vec::new());
        } else {
            guard.release_write(pointers);
        }
        taken
    }
}

} // verus!
