//! The registry's storage cell.

use vstd::prelude::*;

use core::any::TypeId;

use crate::erased::erase;
use crate::erased::erased_holds;
use crate::erased::erased_key;
use crate::erased::erased_mut;
use crate::erased::erased_ref;
use crate::erased::ErasedBox;

verus! {

/// Sole owner of one heap-allocated value of an erased type.
///
/// The cell does not know the concrete type of its contents; a caller names
/// a type again through [`Inner::get`] or [`Inner::get_mut`], whose downcast
/// checks the request against the type the cell was built with. The cell's
/// allocation is created once, in [`Inner::new`], and freed exactly once,
/// when the cell is dropped.
pub struct Inner {
    erased: ErasedBox,
}

impl Inner {
    /// The identity key of the type this cell was built with. Accessors for
    /// exactly that type succeed; accessors for every other type miss.
    pub closed spec fn built_key(self) -> TypeId {
        erased_key(self.erased)
    }

    /// Holds exactly when this cell was built with the type `T` and
    /// contains the value `v`.
    pub closed spec fn holds<T>(self, v: T) -> bool {
        erased_holds::<T>(self.erased, v)
    }

    /// Erases the type of `val` and wraps the allocation that owns it.
    pub fn new<T: 'static>(val: T) -> (r: Inner)
        ensures
            r.built_key() == crate::type_key::<T>(),
            r.holds::<T>(val),
    {
        Inner { erased: erase(val) }
    }

    /// A shared reference to the contents: present exactly when the
    /// requested type `T` is the one the cell was built with.
    pub fn get<'a, T: 'static>(&'a self) -> (r: Option<&'a T>)
        ensures
            r is Some <==> self.built_key() == crate::type_key::<T>(),
            r is Some ==> self.holds::<T>(*r->Some_0),
            forall|v: T| #[trigger] self.holds::<T>(v) ==> r is Some && *r->Some_0 == v,
    {
        erased_ref(&self.erased)
    }

    /// An exclusive reference to the contents: present exactly when the
    /// requested type `T` is the one the cell was built with. Whatever the
    /// caller leaves behind through that reference is the cell's new
    /// contents, still of the built type.
    pub fn get_mut<'a, T: 'static>(&'a mut self) -> (r: Option<&'a mut T>)
        ensures
            r is Some <==> old(self).built_key() == crate::type_key::<T>(),
            r is Some ==> old(self).holds::<T>(*r->Some_0),
            forall|v: T| #[trigger] old(self).holds::<T>(v) ==> r is Some && *r->Some_0 == v,
            final(self).built_key() == old(self).built_key(),
            r is Some ==> final(self).holds::<T>(*final(r->Some_0)),
            r is None ==> *final(self) == *old(self),
    {
        erased_mut(&mut self.erased)
    }
}

} // verus!
