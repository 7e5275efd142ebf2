//! The trust boundary of the crate: type erasure and recovery.
//!
//! A value of an arbitrary `'static` type is erased into an [`ErasedBox`], an
//! opaque heap cell, and recovered by a checked downcast against a requested
//! type. The verifier cannot look through the erasure, so this module keeps
//! the whole mechanism in one small, audited unit: three abstract spec
//! functions describe type identity keys, the type an erased cell was built
//! with, and the cell's contents, and a handful of trusted wrappers around
//! `core::any` and `Box` state how the runtime operations relate to them.
//! Everything else in the crate is verified against these contracts.
//!
//! The intended reading of the abstractions: `type_key::<T>()` is the
//! `TypeId` of `T`; `erased_key(e)` is the `TypeId` of the type `e` was
//! built with; `erased_holds::<T>(e, v)` says that `e` was built with `T`
//! and currently contains exactly `v`. Under that reading every contract
//! below is a plain description of what `TypeId::of`, `Box::new`,
//! `downcast_ref` and `downcast_mut` do.

use vstd::prelude::*;

use core::any::Any;
use core::any::TypeId;

verus! {

/// `core::any::TypeId` is the per-type identity value the registry keys its
/// storage by; the verifier treats it as an opaque value.
#[verifier::external_type_specification]
#[verifier::external_body]
pub struct ExTypeId(TypeId);

/// The identity key of the type `T`.
///
/// The key is abstract, and different instantiations are independent of one
/// another: for one `T` every call of [`runtime_key`] returns the same key,
/// but whether the keys of two types coincide can only be learnt at run
/// time, through [`runtime_keys_match`].
pub closed spec fn type_key<T>() -> TypeId {
    arbitrary::<(T, TypeId)>().1
}

/// The identity key of the type the erased cell `e` was built with.
pub uninterp spec fn erased_key(e: ErasedBox) -> TypeId;

/// Holds exactly when the erased cell `e` was built with the type `T` and
/// currently contains the value `v`.
///
/// The relation is abstract — an independent one for each `T`, applied to
/// the cell and the value — and the trusted wrappers below are its only
/// source of facts.
pub closed spec fn erased_holds<T>(e: ErasedBox, v: T) -> bool {
    (arbitrary::<spec_fn(ErasedBox, T) -> bool>())(e, v)
}

/// One heap allocation owning a single value of an erased type.
///
/// The concrete type of the contents is not recoverable from the cell
/// itself; it can only be named again by the caller of [`erased_ref`] or
/// [`erased_mut`], whose downcast checks the request against the type the
/// cell was built with.
#[verifier::external_body]
pub struct ErasedBox {
    boxed: Box<dyn Any>,
}

/// Relies on `core::any::TypeId::of`: for one type argument it returns the
/// same identity value on every call within a running program.
#[verifier::external_body]
pub fn runtime_key<T: 'static>() -> (r: TypeId)
    ensures
        r == type_key::<T>(),
{
    TypeId::of::<T>()
}

/// Relies on `core::any::TypeId::of` and `TypeId`'s `PartialEq`: two
/// identity values compare equal exactly when they were derived from the
/// same type, so the comparison tells whether `T` and `U` share their key.
#[verifier::external_body]
pub fn runtime_keys_match<T: 'static, U: 'static>() -> (r: bool)
    ensures
        r <==> type_key::<T>() == type_key::<U>(),
{
    TypeId::of::<T>() == TypeId::of::<U>()
}

/// Relies on `Box::new` and the unsized coercion to `dyn Any`: the new
/// allocation owns exactly `val`, and its erased type is `T`.
#[verifier::external_body]
pub fn erase<T: 'static>(val: T) -> (r: ErasedBox)
    ensures
        erased_key(r) == type_key::<T>(),
        erased_holds::<T>(r, val),
{
    ErasedBox { boxed: Box::new(val) }
}

/// Relies on `<dyn Any>::downcast_ref`: it returns a reference to the boxed
/// value exactly when the requested type is the type the box was built
/// with, and reads the contents unchanged.
#[verifier::external_body]
pub fn erased_ref<'a, T: 'static>(e: &'a ErasedBox) -> (r: Option<&'a T>)
    ensures
        r is Some <==> erased_key(*e) == type_key::<T>(),
        r is Some ==> erased_holds::<T>(*e, *r->Some_0),
        forall|v: T| #[trigger] erased_holds::<T>(*e, v) ==> r is Some && *r->Some_0 == v,
{
    e.boxed.downcast_ref::<T>()
}

/// Relies on `<dyn Any>::downcast_mut`: it returns a mutable reference to
/// the boxed value exactly when the requested type is the type the box was
/// built with. Whatever the caller leaves behind through that reference is
/// the cell's new contents, still of the type the cell was built with; when
/// the downcast misses, the cell is untouched.
#[verifier::external_body]
pub fn erased_mut<'a, T: 'static>(e: &'a mut ErasedBox) -> (r: Option<&'a mut T>)
    ensures
        r is Some <==> erased_key(*old(e)) == type_key::<T>(),
        r is Some ==> erased_holds::<T>(*old(e), *r->Some_0),
        forall|v: T| #[trigger] erased_holds::<T>(*old(e), v) ==> r is Some && *r->Some_0 == v,
        erased_key(*final(e)) == erased_key(*old(e)),
        r is Some ==> erased_holds::<T>(*final(e), *final(r->Some_0)),
        r is None ==> *final(e) == *old(e),
{
    e.boxed.downcast_mut::<T>()
}

} // verus!
