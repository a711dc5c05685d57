//! The calls into the standard library whose contracts are taken on trust.
use std::any::TypeId;
use std::sync::Arc;
use vstd::prelude::*;

verus! {

/// `std::any::TypeId`, carried through as an opaque value.
#[verifier::external_type_specification]
#[verifier::external_body]
pub struct ExTypeId(std::any::TypeId);

/// `std::any::TypeId::of`: the identifier of the type `T`. Nothing is claimed of
/// it here; the name serves [`is_id_of`] and [`type_id_of`] to speak of its
/// results.
pub assume_specification<T: ?Sized + 'static>[ std::any::TypeId::of::<T> ]() -> (id: std::any::TypeId);

/// Calls `std::any::TypeId::of`: the identifier of the type `F`. It is the only
/// one that the type has: whatever else is given for `F` is equal to it. The call
/// does not panic.
///
/// Left unsaid is that two types never share an identifier, because a contract
/// cannot speak of types that differ.
#[verifier::external_body]
pub(crate) fn type_id_of<F: 'static>() -> (id: TypeId)
    ensures
        is_id_of::<F>(id),
    opens_invariants none
    no_unwind
{
    TypeId::of::<F>()
}

/// Whether `id` is the identifier of the type `F`: the one that
/// `std::any::TypeId::of` gives for it, always.
pub open spec fn is_id_of<F: 'static>(id: TypeId) -> bool {
    &&& call_ensures(TypeId::of::<F>, (), id)
    &&& forall|other: TypeId| #[trigger] call_ensures(TypeId::of::<F>, (), other) ==> other == id
}

/// Calls `PartialEq::eq` of `std::any::TypeId`: it tells whether two
/// identifiers are the same identifier, and it does not panic.
#[verifier::external_body]
pub(crate) fn type_id_eq(a: &TypeId, b: &TypeId) -> (same: bool)
    ensures
        same == (*a == *b),
    opens_invariants none
    no_unwind
{
    a == b
}

/// Calls `std::sync::Arc::as_ptr`: where the pointed-to value lies, as a number.
///
/// Nothing is claimed of the number, which is picked by the allocator, but that
/// the call does not panic. Left unsaid is that all pointers to one allocation
/// give one address, because a contract speaks of the value behind an `Arc` and
/// not of its allocation. The functions that use an address say, by [`lies_at`],
/// which pointer it was asked of.
#[verifier::external_body]
pub fn arc_address<T>(pointer: &Arc<T>) -> (address: usize)
    opens_invariants none
    no_unwind
{
    Arc::as_ptr(pointer) as usize
}

/// Whether `address` is one that was given for the place where the value behind
/// `pointer` lies.
pub open spec fn lies_at<T>(pointer: Arc<T>, address: usize) -> bool {
    call_ensures(arc_address::<T>, (&pointer,), address)
}

/// The place where the value behind `pointer` lies, as a number.
pub(crate) fn address_of<T>(pointer: &Arc<T>) -> (address: usize)
    ensures
        lies_at(*pointer, address),
    opens_invariants none
    no_unwind
{
    arc_address(pointer)
}

} // verus!
