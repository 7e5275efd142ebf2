//! Keyed storage for the registry: an associative map from type identity
//! keys to erased cells, kept behind a small trusted facade.
//!
//! The map itself is an external collaborator (`hashbrown::HashMap`); its
//! contents are modelled by [`storage_view`], and each wrapper below states
//! over that model what the map operation it calls does. The contracts rest
//! on `core::any::TypeId` behaving as a map key: its `Eq` and `Hash` are
//! deterministic, and two keys compare equal exactly when they identify the
//! same type.

use vstd::prelude::*;

use core::any::TypeId;

use crate::inner::Inner;

verus! {

/// The registry's backing map. The verifier never looks inside; the
/// `hashbrown::HashMap` declaration is out of reach because its allocator
/// parameter is bounded by a trait of a crate this one does not depend on,
/// so the map is held in one opaque field instead.
#[verifier::external_body]
pub struct Storage {
    map: hashbrown::HashMap<TypeId, Inner>,
}

/// The contents of the backing map, as a mathematical map from type
/// identity key to stored cell.
pub uninterp spec fn storage_view(s: Storage) -> Map<TypeId, Inner>;

/// The contents of a backing map with no entries.
pub open spec fn empty_model() -> Map<TypeId, Inner> {
    Map::empty()
}

/// Relies on `hashbrown::HashMap::new`: the new map is empty.
#[verifier::external_body]
pub fn storage_new() -> (r: Storage)
    ensures
        storage_view(r) == empty_model(),
{
    Storage { map: hashbrown::HashMap::new() }
}

/// Relies on `hashbrown::HashMap::with_capacity`: the new map is empty; the
/// capacity is only a pre-sizing hint and never part of the contents.
#[verifier::external_body]
pub fn storage_with_capacity(capacity: usize) -> (r: Storage)
    ensures
        storage_view(r) == empty_model(),
{
    Storage { map: hashbrown::HashMap::with_capacity(capacity) }
}

/// Relies on `hashbrown::HashMap::insert`: it maps `k` to `cell`, replacing
/// (and dropping) the value previously stored under an equal key, and leaves
/// every other entry unchanged.
#[verifier::external_body]
pub fn storage_insert(s: &mut Storage, k: TypeId, cell: Inner)
    ensures
        storage_view(*final(s)) == storage_view(*old(s)).insert(k, cell),
{
    let _ = s.map.insert(k, cell);
}

/// Relies on `hashbrown::HashMap::get`: it returns a reference to the value
/// stored under `k`, or nothing when no entry has that key.
#[verifier::external_body]
pub fn storage_get<'a>(s: &'a Storage, k: &TypeId) -> (r: Option<&'a Inner>)
    ensures
        r is Some <==> storage_view(*s).dom().contains(*k),
        r is Some ==> *r->Some_0 == storage_view(*s)[*k],
{
    s.map.get(k)
}

/// Relies on `hashbrown::HashMap::get_mut`: it returns a mutable reference
/// to the value stored under `k`, or nothing (leaving the map unchanged)
/// when no entry has that key. Whatever the caller leaves behind through
/// that reference is the entry's new value; every other entry is unchanged.
#[verifier::external_body]
pub fn storage_get_mut<'a>(s: &'a mut Storage, k: &TypeId) -> (r: Option<&'a mut Inner>)
    ensures
        r is Some <==> storage_view(*old(s)).dom().contains(*k),
        r is Some ==> *r->Some_0 == storage_view(*old(s))[*k] && storage_view(*final(s))
            == storage_view(*old(s)).insert(*k, *final(r->Some_0)),
        r is None ==> storage_view(*final(s)) == storage_view(*old(s)),
{
    s.map.get_mut(k)
}

} // verus!
