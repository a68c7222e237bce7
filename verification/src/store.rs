use vstd::prelude::*;
use std::collections::HashMap;
use crate::point::Point;

verus! {

broadcast use vstd::std_specs::hash::group_hash_axioms;

/// Failure reported by the store: the identifier named no live entry.
#[derive(Clone, Copy, PartialEq, Eq, Structural, Debug)]
pub enum StoreError {
    NotFound(u64),
}

/// The in-memory keyed store: a mapping from generated 64-bit identifiers to
/// point records. Existence of the key is the only condition checked before
/// an operation succeeds; entries carry no order.
pub struct KeyedStore {
    map: HashMap<u64, Point>,
}

impl View for KeyedStore {
    type V = Map<u64, Point>;

    closed spec fn view(&self) -> Map<u64, Point> {
        self.map@
    }
}

/// Relies on uuid::Uuid::new_v4 and uuid::Uuid::as_u64_pair: a fresh
/// identifier is the high half of a randomly generated version-4 UUID.
/// The value is random, so nothing is assumed of it.
#[verifier::external_body]
fn random_id() -> u64 {
    uuid::Uuid::new_v4().as_u64_pair().0
}

impl KeyedStore {
    /// An empty store.
    pub fn new() -> (r: KeyedStore)
        ensures
            r@ == Map::<u64, Point>::empty(),
    {
        KeyedStore { map: HashMap::new() }
    }

    /// Create: insert the value under a freshly generated identifier and
    /// return that identifier. Always succeeds. Identifiers are not checked
    /// for collision against live entries, so whatever identifier comes back,
    /// the store afterwards is exactly the old store with that one binding.
    pub fn create(&mut self, v: Point) -> (id: u64)
        ensures
            final(self)@ == old(self)@.insert(id, v),
            final(self)@.contains_key(id),
            final(self)@[id] == v,
    {
        let id = random_id();
        self.map.insert(id, v);
        id
    }

    /// Read: return the value stored under `id`, or `NotFound(id)` exactly
    /// when no entry lives there.
    pub fn read(&self, id: u64) -> (r: Result<Point, StoreError>)
        ensures
            self@.contains_key(id) ==> r == Ok::<Point, StoreError>(self@[id]),
            !self@.contains_key(id) ==> r == Err::<Point, StoreError>(StoreError::NotFound(id)),
    {
        match self.map.get(&id) {
            Some(p) => Ok(*p),
            None => Err(StoreError::NotFound(id)),
        }
    }

    /// Update: replace the value under `id` wholesale, or fail with
    /// `NotFound(id)` and leave the store unchanged exactly when no entry
    /// lives there.
    pub fn update(&mut self, id: u64, v: Point) -> (r: Result<(), StoreError>)
        ensures
            old(self)@.contains_key(id) ==> {
                &&& r == Ok::<(), StoreError>(())
                &&& final(self)@ == old(self)@.insert(id, v)
            },
            !old(self)@.contains_key(id) ==> {
                &&& r == Err::<(), StoreError>(StoreError::NotFound(id))
                &&& final(self)@ == old(self)@
            },
    {
        if self.map.contains_key(&id) {
            self.map.insert(id, v);
            Ok(())
        } else {
            Err(StoreError::NotFound(id))
        }
    }

    /// Delete: remove the entry under `id`. Succeeds unconditionally, whether
    /// or not the key was present.
    pub fn delete(&mut self, id: u64)
        ensures
            final(self)@ == old(self)@.remove(id),
    {
        self.map.remove(&id);
    }
}

/// Round-trip law: after a create returns `id` on a store whose contents
/// were `m`, the store maps `id` to the created value, so `read(id)` is owed
/// `Ok` of exactly that value by its contract.
pub proof fn lemma_create_then_read(m: Map<u64, Point>, id: u64, v: Point)
    ensures
        m.insert(id, v).contains_key(id),
        m.insert(id, v)[id] == v,
{
}

/// Overwrite law: an update replaces whatever value was stored before, so a
/// read that follows an update yields the value just written, and a second
/// write under the same identifier erases the first.
pub proof fn lemma_update_then_read(m: Map<u64, Point>, id: u64, v1: Point, v2: Point)
    ensures
        m.insert(id, v2)[id] == v2,
        m.insert(id, v1).insert(id, v2) =~= m.insert(id, v2),
{
}

/// Delete-then-read law: after a delete, the identifier names no entry, so
/// `read(id)` is owed `Err(NotFound(id))` by its contract.
pub proof fn lemma_delete_then_read(m: Map<u64, Point>, id: u64)
    ensures
        !m.remove(id).contains_key(id),
{
}

/// Idempotent delete law: deleting an absent identifier succeeds (delete has
/// no precondition and returns nothing) and leaves the store's contents
/// unchanged; deleting twice is the same as deleting once.
pub proof fn lemma_delete_absent(m: Map<u64, Point>, id: u64)
    ensures
        !m.contains_key(id) ==> m.remove(id) =~= m,
        m.remove(id).remove(id) =~= m.remove(id),
{
}

} // verus!
