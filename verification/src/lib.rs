//! A process-local, type-indexed single-instance registry: it stores at most
//! one value of each distinct type and hands references to that value back
//! on demand, without requiring the stored types to share a common
//! interface. Callers [`Singleton::set`] a value for its type and later get
//! it back through [`Singleton::get`] / [`Singleton::get_mut`] or their
//! fallible `try_` forms.
//!
//! The registry is ordinary owned data with no internal synchronization: a
//! caller who reaches one instance from several threads must impose their
//! own mutual exclusion around it.
//!
//! # Model
//!
//! A registry is modelled by a `Map` from type identity key ([`type_key`])
//! to stored cell ([`Inner`]); [`stores`] says that the entry for a type
//! contains a given value. The registry's invariant, [`cells_keyed`], says
//! that the cell under each key was built with the type of that key — so a
//! lookup that finds an entry always succeeds in recovering the requested
//! type, and a downcast mismatch is unreachable. Constructors establish the
//! invariant and every operation preserves it.
//!
//! Identity keys are abstract: for one type the key is fixed, but whether
//! the keys of two types coincide is learnt at run time through
//! [`distinct_type_keys`], whose verdict feeds the hypothesis of
//! [`lemma_distinct_types_independent`]. Each operation's contract is
//! stated over the model, and the laws at the end of this file relate the
//! operations to one another.

mod erased;
mod inner;
mod storage;

pub use erased::type_key;
pub use inner::Inner;
pub use storage::empty_model;

use vstd::prelude::*;

use core::any::TypeId;

use crate::erased::runtime_key;
use crate::erased::runtime_keys_match;
use crate::storage::storage_get;
use crate::storage::storage_get_mut;
use crate::storage::storage_insert;
use crate::storage::storage_new;
use crate::storage::storage_view;
use crate::storage::storage_with_capacity;
use crate::storage::Storage;

verus! {

/// Holds exactly when the registry model `m` has an entry for the type `T`
/// and that entry's cell contains the value `v`.
pub open spec fn stores<T>(m: Map<TypeId, Inner>, v: T) -> bool {
    &&& m.dom().contains(type_key::<T>())
    &&& m[type_key::<T>()].holds::<T>(v)
}

/// Holds exactly when the registry model `m` has an entry for the type `T`
/// that contains some value of that type.
pub open spec fn stores_some<T>(m: Map<TypeId, Inner>) -> bool {
    exists|v: T| stores::<T>(m, v)
}

/// The registry invariant: the cell under each key was built with the type
/// of that key, so the downcast behind a successful lookup never misses.
pub open spec fn cells_keyed(m: Map<TypeId, Inner>) -> bool {
    forall|k: TypeId| #[trigger] m.dom().contains(k) ==> m[k].built_key() == k
}

/// How a store for the type `T` relates the registry model before (`pre`)
/// to the model after (`post`): the entry for `T` is replaced by a cell
/// containing `value`, and every other entry is untouched.
pub open spec fn set_post<T>(pre: Map<TypeId, Inner>, post: Map<TypeId, Inner>, value: T) -> bool {
    &&& post == pre.insert(type_key::<T>(), post[type_key::<T>()])
    &&& stores::<T>(post, value)
}

/// Whether the identity keys of `T` and `U` differ. For one pair of types
/// every call returns the same verdict; a `true` verdict discharges the
/// hypothesis of [`lemma_distinct_types_independent`], so a caller who
/// checks it once knows the two types' entries never disturb one another.
pub fn distinct_type_keys<T: 'static, U: 'static>() -> (r: bool)
    ensures
        r <==> type_key::<T>() != type_key::<U>(),
{
    !runtime_keys_match::<T, U>()
}

/// The registry: a map from type identity key to one [`Inner`] cell, with
/// at most one entry per key — at most one live instance of any given type
/// is retrievable at a time.
pub struct Singleton {
    storage: Storage,
}

impl View for Singleton {
    type V = Map<TypeId, Inner>;

    closed spec fn view(&self) -> Map<TypeId, Inner> {
        storage_view(self.storage)
    }
}

impl Singleton {
    /// Creates an empty registry.
    pub fn new() -> (r: Self)
        ensures
            r@ == empty_model(),
            cells_keyed(r@),
    {
        Singleton { storage: storage_new() }
    }

    /// Creates an empty registry pre-sized for `capacity` distinct types.
    ///
    /// The hint is a performance matter only: the result's model is the same
    /// as that of [`Singleton::new`], so the two are behaviorally identical.
    pub fn with_capacity(capacity: usize) -> (r: Self)
        ensures
            r@ == empty_model(),
            cells_keyed(r@),
    {
        Singleton { storage: storage_with_capacity(capacity) }
    }

    /// Stores `data` as the single instance of the type `T`, silently
    /// replacing (dropping and freeing) any value previously stored for `T`.
    pub fn set<T: 'static>(&mut self, data: T)
        ensures
            set_post::<T>(old(self)@, final(self)@, data),
            cells_keyed(old(self)@) ==> cells_keyed(final(self)@),
    {
        let k = runtime_key::<T>();
        let cell = Inner::new(data);
        let ghost gcell = cell;
        storage_insert(&mut self.storage, k, cell);
        proof {
            if cells_keyed(old(self)@) {
                lemma_keyed_after_insert(old(self)@, type_key::<T>(), gcell);
            }
        }
    }

    /// A shared reference to the stored instance of `T`, or nothing when no
    /// value is stored for `T`. On a registry satisfying its invariant the
    /// outcome is decided by presence alone: an entry for `T` exists if and
    /// only if something is returned.
    pub fn try_get<'a, T: 'static>(&'a self) -> (r: Option<&'a T>)
        ensures
            !self@.dom().contains(type_key::<T>()) ==> r is None,
            cells_keyed(self@) ==> (r is Some <==> self@.dom().contains(type_key::<T>())),
            r is Some ==> stores::<T>(self@, *r->Some_0),
            forall|v: T| #[trigger] stores::<T>(self@, v) ==> r is Some && *r->Some_0 == v,
    {
        let k = runtime_key::<T>();
        match storage_get(&self.storage, &k) {
            None => None,
            Some(cell) => cell.get::<T>(),
        }
    }

    /// A shared reference to the stored instance of `T`. Absence of such an
    /// instance is a caller error, ruled out by the precondition; use
    /// [`Singleton::try_get`] where it must be handled gracefully.
    pub fn get<'a, T: 'static>(&'a self) -> (r: &'a T)
        requires
            stores_some::<T>(self@),
        ensures
            stores::<T>(self@, *r),
            forall|v: T| #[trigger] stores::<T>(self@, v) ==> *r == v,
    {
        self.try_get::<T>().unwrap()
    }

    /// An exclusive reference to the stored instance of `T`, or nothing
    /// (leaving the registry unchanged) when no value is stored for `T`.
    /// On a registry satisfying its invariant the outcome is decided by
    /// presence alone. Whatever the caller leaves behind through the
    /// reference becomes the stored instance of `T`, as if it had been
    /// stored by [`Singleton::set`].
    pub fn try_get_mut<'a, T: 'static>(&'a mut self) -> (r: Option<&'a mut T>)
        ensures
            !old(self)@.dom().contains(type_key::<T>()) ==> r is None,
            cells_keyed(old(self)@) ==> (r is Some <==> old(self)@.dom().contains(
                type_key::<T>(),
            )),
            r is Some ==> stores::<T>(old(self)@, *r->Some_0),
            forall|v: T| #[trigger] stores::<T>(old(self)@, v) ==> r is Some && *r->Some_0 == v,
            r is Some ==> set_post::<T>(old(self)@, final(self)@, *final(r->Some_0)),
            r is None ==> final(self)@ == old(self)@,
            cells_keyed(old(self)@) ==> cells_keyed(final(self)@),
    {
        let k = runtime_key::<T>();
        match storage_get_mut(&mut self.storage, &k) {
            None => None,
            Some(cell) => {
                let r = cell.get_mut::<T>();
                proof {
                    if r is None {
                        assert(old(self)@.insert(type_key::<T>(), old(self)@[type_key::<T>()])
                            =~= old(self)@);
                    }
                    assert forall|c: Inner|
                        cells_keyed(old(self)@) && c.built_key() == type_key::<T>()
                            implies cells_keyed(
                        #[trigger] old(self)@.insert(type_key::<T>(), c),
                    ) by {
                        lemma_keyed_after_insert(old(self)@, type_key::<T>(), c);
                    }
                }
                r
            },
        }
    }

    /// An exclusive reference to the stored instance of `T`. Absence of such
    /// an instance is a caller error, ruled out by the precondition; use
    /// [`Singleton::try_get_mut`] where it must be handled gracefully.
    pub fn get_mut<'a, T: 'static>(&'a mut self) -> (r: &'a mut T)
        requires
            stores_some::<T>(old(self)@),
        ensures
            stores::<T>(old(self)@, *r),
            forall|v: T| #[trigger] stores::<T>(old(self)@, v) ==> *r == v,
            set_post::<T>(old(self)@, final(self)@, *final(r)),
            cells_keyed(old(self)@) ==> cells_keyed(final(self)@),
    {
        self.try_get_mut::<T>().unwrap()
    }
}

/// Law: the invariant survives a store. Replacing the entry under a key by
/// a cell built with that key's type keeps every cell under the key of its
/// own type.
pub proof fn lemma_keyed_after_insert(m: Map<TypeId, Inner>, k: TypeId, c: Inner)
    requires
        cells_keyed(m),
        c.built_key() == k,
    ensures
        cells_keyed(m.insert(k, c)),
{
    assert forall|kk: TypeId| #[trigger] m.insert(k, c).dom().contains(kk) implies m.insert(
        k,
        c,
    )[kk].built_key() == kk by {
        if kk != k {
            assert(m.dom().contains(kk));
        }
    }
}

/// Law: a stored value is retrievable. After a store of `value` for the type
/// `T` — the relation `set_post`, which is the postcondition of
/// [`Singleton::set`] and also of a write through a reference obtained from
/// [`Singleton::get_mut`] — the registry stores `value` for `T`, so the
/// contracts of [`Singleton::get`] and [`Singleton::try_get`] hand back
/// exactly `value`.
pub proof fn lemma_set_then_get<T>(pre: Map<TypeId, Inner>, post: Map<TypeId, Inner>, value: T)
    requires
        set_post::<T>(pre, post, value),
    ensures
        stores::<T>(post, value),
        stores_some::<T>(post),
{
    assert(stores::<T>(post, value));
}

/// Law: storing is an idempotent overwrite. Two consecutive stores for one
/// type leave the second value stored under a single entry for that type,
/// and leave every other type's entry exactly as it was before either store.
pub proof fn lemma_set_overwrites<T>(
    m0: Map<TypeId, Inner>,
    m1: Map<TypeId, Inner>,
    m2: Map<TypeId, Inner>,
    v1: T,
    v2: T,
)
    requires
        set_post::<T>(m0, m1, v1),
        set_post::<T>(m1, m2, v2),
    ensures
        stores::<T>(m2, v2),
        m2.dom() == m0.dom().insert(type_key::<T>()),
        forall|k: TypeId| k != type_key::<T>() && m0.dom().contains(k) ==> m2[k] == m0[k],
{
    assert(m2.dom() =~= m0.dom().insert(type_key::<T>()));
}

/// Law: types with distinct identity keys never collide. Storing for `T`
/// and then for `U` leaves both values stored, each under its own entry.
/// The hypothesis that the keys differ is the verdict of one call of
/// [`distinct_type_keys`].
pub proof fn lemma_distinct_types_independent<T, U>(
    m0: Map<TypeId, Inner>,
    m1: Map<TypeId, Inner>,
    m2: Map<TypeId, Inner>,
    v: T,
    w: U,
)
    requires
        type_key::<T>() != type_key::<U>(),
        set_post::<T>(m0, m1, v),
        set_post::<U>(m1, m2, w),
    ensures
        stores::<T>(m2, v),
        stores::<U>(m2, w),
{
}

/// Law: an empty registry stores nothing, for any type. In particular
/// [`Singleton::try_get`] on a fresh registry returns nothing rather than
/// aborting.
pub proof fn lemma_empty_stores_nothing<T>(m: Map<TypeId, Inner>)
    requires
        m == empty_model(),
    ensures
        !stores_some::<T>(m),
{
}

/// Law: the capacity hint is unobservable. A registry built with a capacity
/// hint has the same model as one built without, and every contract in this
/// file is stated over the model alone, so the two registries are
/// behaviorally identical.
pub proof fn lemma_capacity_hint_unobservable(a: Map<TypeId, Inner>, b: Map<TypeId, Inner>)
    requires
        a == empty_model(),
        b == empty_model(),
    ensures
        a == b,
{
}

} // verus!
