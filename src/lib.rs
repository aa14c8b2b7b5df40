//! A memoizing value store keyed by the identity of the producing function.
//!
//! The first `get` with a producer runs it and installs its result; every later
//! `get` with a producer of the same static type hands back the installed value
//! without running the producer. A producer receives the store itself, so it
//! may ask the store for other values while it computes its own; it must leave
//! every value already installed where it was.
//!
//! A store holds values of one type `V`; keep one store per value type.
use vstd::prelude::*;

use std::marker::PhantomData;
use std::rc::Rc;

use type_key::TypeKey;

pub mod directory;
pub mod laws;
pub mod raw;

use crate::raw::RawFnMap;

verus! {

/// Single-threaded store.
///
/// Values are handed back by reference or by slot: the position of the value
/// in the store, which stays attached to it until `reset`. A producer is
/// called with the store itself and may ask it for values of other producers;
/// it must keep every installed value (it may install more, but not reset).
pub struct FnMap<V> {
    raw: RawFnMap<V>,
}

impl<V> FnMap<V> {
    /// The backing store.
    pub closed spec fn store(&self) -> RawFnMap<V> {
        self.raw
    }

    /// An empty store.
    pub fn new() -> (r: Self)
        ensures
            r.store().fresh(),
    {
        FnMap { raw: RawFnMap::new() }
    }

    /// The value in `slot`, as handed out by `get_ptr`.
    pub fn value(&self, slot: usize) -> (r: &V)
        requires
            slot < self.store().values().len(),
        ensures
            *r == self.store().values()[slot as int],
    {
        self.raw.value(slot)
    }

    /// Get-or-compute under an explicit identity token; returns the slot of
    /// the value installed under `key`.
    pub fn get_ptr_by<F: FnOnce(&mut FnMap<V>) -> V>(&mut self, key: TypeKey, key_fn: F) -> (r: usize)
        requires
            forall|m: &mut FnMap<V>| call_requires(key_fn, (m,)),
            forall|m: &mut FnMap<V>, v: V|
                call_ensures(key_fn, (m,), v) ==> (*m).store().keeps((*final(m)).store()),
        ensures
            final(self).store().slots().contains_key(key),
            r == final(self).store().slots()[key],
            r < final(self).store().values().len(),
            old(self).store().keeps(final(self).store()),
            old(self).store().slots().contains_key(key) ==> *final(self) == *old(self),
            !old(self).store().slots().contains_key(key) ==> exists|m: &mut FnMap<V>, v: V|
                *m == *old(self) && call_ensures(key_fn, (m,), v) && final(self).store().settled(
                    (*final(m)).store(),
                    key,
                    v,
                    r,
                ),
    {
        match self.raw.get(&key) {
            Some(slot) => slot,
            None => {
                let ghost before = *self;
                // the producer runs before anything is installed, so that it
                // may use the store itself
                let value = key_fn(self);
                let ghost after = *self;
                let slot = self.raw.get_or_insert(key, value);
                proof {
                    let m = choose|m: &mut FnMap<V>| *m == before && *final(m) == after && call_ensures(key_fn, (m,), value);
                    assert(final(self).store().settled((*final(m)).store(), key, value, slot));
                    assert(before.store().keeps(after.store()));
                }
                slot
            }
        }
    }

    /// Get-or-compute keyed by the identity of the producer's static type;
    /// returns the slot of the installed value.
    ///
    /// Which token `TypeKey::of_val` gives for a producer is not stated here,
    /// so this contract speaks of some key; `get_ptr_by` is the same step with
    /// the key given, and its contract is exact.
    pub fn get_ptr<F: FnOnce(&mut FnMap<V>) -> V>(&mut self, key_fn: F) -> (r: usize)
        requires
            forall|m: &mut FnMap<V>| call_requires(key_fn, (m,)),
            forall|m: &mut FnMap<V>, v: V|
                call_ensures(key_fn, (m,), v) ==> (*m).store().keeps((*final(m)).store()),
        ensures
            r < final(self).store().values().len(),
            old(self).store().keeps(final(self).store()),
            exists|key: TypeKey|
                {
                    &&& #[trigger] final(self).store().slots().contains_key(key)
                    &&& r == final(self).store().slots()[key]
                    &&& old(self).store().slots().contains_key(key) ==> *final(self) == *old(self)
                    &&& !old(self).store().slots().contains_key(key) ==> exists|m: &mut FnMap<V>, v: V|
                        *m == *old(self) && call_ensures(key_fn, (m,), v) && final(self).store().settled(
                            (*final(m)).store(),
                            key,
                            v,
                            r,
                        )
                },
    {
        let key = TypeKey::of_val(&key_fn);
        self.get_ptr_by(key, key_fn)
    }

    /// Get-or-compute keyed by the identity of the producer's static type
    /// (see `get_ptr` on how far the key is stated).
    pub fn get<F: FnOnce(&mut FnMap<V>) -> V>(&mut self, key_fn: F) -> (r: &V)
        requires
            forall|m: &mut FnMap<V>| call_requires(key_fn, (m,)),
            forall|m: &mut FnMap<V>, v: V|
                call_ensures(key_fn, (m,), v) ==> (*m).store().keeps((*final(m)).store()),
        ensures
            old(self).store().keeps(final(self).store()),
            exists|key: TypeKey|
                {
                    &&& #[trigger] final(self).store().slots().contains_key(key)
                    &&& *r == final(self).store().value_of(key)
                    &&& old(self).store().slots().contains_key(key) ==> *final(self) == *old(self)
                    &&& !old(self).store().slots().contains_key(key) ==> exists|m: &mut FnMap<V>, v: V|
                        *m == *old(self) && call_ensures(key_fn, (m,), v) && final(self).store().settled(
                            (*final(m)).store(),
                            key,
                            v,
                            final(self).store().slots()[key],
                        )
                },
    {
        let slot = self.get_ptr(key_fn);
        self.raw.value(slot)
    }

    /// Get-or-compute keyed by the identity of the producer's static type,
    /// with exclusive access to the installed value; every other value stays.
    pub fn get_mut<F: FnOnce(&mut FnMap<V>) -> V>(&mut self, key_fn: F) -> (r: &mut V)
        requires
            forall|m: &mut FnMap<V>| call_requires(key_fn, (m,)),
            forall|m: &mut FnMap<V>, v: V|
                call_ensures(key_fn, (m,), v) ==> (*m).store().keeps((*final(m)).store()),
        ensures
            exists|key: TypeKey, mid: FnMap<V>|
                {
                    &&& #[trigger] mid.store().slots().contains_key(key)
                    &&& old(self).store().keeps(mid.store())
                    &&& *r == mid.store().value_of(key)
                    &&& final(self).store().slots() == mid.store().slots()
                    &&& final(self).store().values() == mid.store().values().update(
                        mid.store().slots()[key] as int,
                        *final(r),
                    )
                    &&& old(self).store().slots().contains_key(key) ==> mid == *old(self)
                    &&& !old(self).store().slots().contains_key(key) ==> exists|m: &mut FnMap<V>, v: V|
                        *m == *old(self) && call_ensures(key_fn, (m,), v) && mid.store().settled(
                            (*final(m)).store(),
                            key,
                            v,
                            mid.store().slots()[key],
                        )
                },
    {
        let slot = self.get_ptr(key_fn);
        self.raw.value_mut(slot)
    }

    /// Number of installed values.
    pub fn len(&self) -> (r: usize)
        ensures
            r == self.store().slots().len(),
            r == self.store().values().len(),
    {
        self.raw.len()
    }

    /// Drops every installed value.
    pub fn reset(&mut self)
        ensures
            final(self).store().fresh(),
    {
        self.raw.reset();
    }
}

impl<V> Default for FnMap<V> {
    fn default() -> (r: Self)
        ensures
            r.store().fresh(),
    {
        Self::new()
    }
}

/// Single-threaded store that also stays on the thread that made it.
///
/// Values are handed back by reference or by slot: the position of the value
/// in the store, which stays attached to it until `reset`. A producer is
/// called with the store itself and may ask it for values of other producers;
/// it must keep every installed value (it may install more, but not reset).
pub struct LocalOnlyFnMap<V> {
    raw: RawFnMap<V>,
    local: PhantomData<Rc<()>>,
}

impl<V> LocalOnlyFnMap<V> {
    /// The backing store.
    pub closed spec fn store(&self) -> RawFnMap<V> {
        self.raw
    }

    /// An empty store.
    pub fn new() -> (r: Self)
        ensures
            r.store().fresh(),
    {
        LocalOnlyFnMap { raw: RawFnMap::new(), local: PhantomData }
    }

    /// The value in `slot`, as handed out by `get_ptr`.
    pub fn value(&self, slot: usize) -> (r: &V)
        requires
            slot < self.store().values().len(),
        ensures
            *r == self.store().values()[slot as int],
    {
        self.raw.value(slot)
    }

    /// Get-or-compute under an explicit identity token; returns the slot of
    /// the value installed under `key`.
    pub fn get_ptr_by<F: FnOnce(&mut LocalOnlyFnMap<V>) -> V>(&mut self, key: TypeKey, key_fn: F) -> (r: usize)
        requires
            forall|m: &mut LocalOnlyFnMap<V>| call_requires(key_fn, (m,)),
            forall|m: &mut LocalOnlyFnMap<V>, v: V|
                call_ensures(key_fn, (m,), v) ==> (*m).store().keeps((*final(m)).store()),
        ensures
            final(self).store().slots().contains_key(key),
            r == final(self).store().slots()[key],
            r < final(self).store().values().len(),
            old(self).store().keeps(final(self).store()),
            old(self).store().slots().contains_key(key) ==> *final(self) == *old(self),
            !old(self).store().slots().contains_key(key) ==> exists|m: &mut LocalOnlyFnMap<V>, v: V|
                *m == *old(self) && call_ensures(key_fn, (m,), v) && final(self).store().settled(
                    (*final(m)).store(),
                    key,
                    v,
                    r,
                ),
    {
        match self.raw.get(&key) {
            Some(slot) => slot,
            None => {
                let ghost before = *self;
                // the producer runs before anything is installed, so that it
                // may use the store itself
                let value = key_fn(self);
                let ghost after = *self;
                let slot = self.raw.get_or_insert(key, value);
                proof {
                    let m = choose|m: &mut LocalOnlyFnMap<V>| *m == before && *final(m) == after && call_ensures(key_fn, (m,), value);
                    assert(final(self).store().settled((*final(m)).store(), key, value, slot));
                    assert(before.store().keeps(after.store()));
                }
                slot
            }
        }
    }

    /// Get-or-compute keyed by the identity of the producer's static type;
    /// returns the slot of the installed value.
    ///
    /// Which token `TypeKey::of_val` gives for a producer is not stated here,
    /// so this contract speaks of some key; `get_ptr_by` is the same step with
    /// the key given, and its contract is exact.
    pub fn get_ptr<F: FnOnce(&mut LocalOnlyFnMap<V>) -> V>(&mut self, key_fn: F) -> (r: usize)
        requires
            forall|m: &mut LocalOnlyFnMap<V>| call_requires(key_fn, (m,)),
            forall|m: &mut LocalOnlyFnMap<V>, v: V|
                call_ensures(key_fn, (m,), v) ==> (*m).store().keeps((*final(m)).store()),
        ensures
            r < final(self).store().values().len(),
            old(self).store().keeps(final(self).store()),
            exists|key: TypeKey|
                {
                    &&& #[trigger] final(self).store().slots().contains_key(key)
                    &&& r == final(self).store().slots()[key]
                    &&& old(self).store().slots().contains_key(key) ==> *final(self) == *old(self)
                    &&& !old(self).store().slots().contains_key(key) ==> exists|m: &mut LocalOnlyFnMap<V>, v: V|
                        *m == *old(self) && call_ensures(key_fn, (m,), v) && final(self).store().settled(
                            (*final(m)).store(),
                            key,
                            v,
                            r,
                        )
                },
    {
        let key = TypeKey::of_val(&key_fn);
        self.get_ptr_by(key, key_fn)
    }

    /// Get-or-compute keyed by the identity of the producer's static type
    /// (see `get_ptr` on how far the key is stated).
    pub fn get<F: FnOnce(&mut LocalOnlyFnMap<V>) -> V>(&mut self, key_fn: F) -> (r: &V)
        requires
            forall|m: &mut LocalOnlyFnMap<V>| call_requires(key_fn, (m,)),
            forall|m: &mut LocalOnlyFnMap<V>, v: V|
                call_ensures(key_fn, (m,), v) ==> (*m).store().keeps((*final(m)).store()),
        ensures
            old(self).store().keeps(final(self).store()),
            exists|key: TypeKey|
                {
                    &&& #[trigger] final(self).store().slots().contains_key(key)
                    &&& *r == final(self).store().value_of(key)
                    &&& old(self).store().slots().contains_key(key) ==> *final(self) == *old(self)
                    &&& !old(self).store().slots().contains_key(key) ==> exists|m: &mut LocalOnlyFnMap<V>, v: V|
                        *m == *old(self) && call_ensures(key_fn, (m,), v) && final(self).store().settled(
                            (*final(m)).store(),
                            key,
                            v,
                            final(self).store().slots()[key],
                        )
                },
    {
        let slot = self.get_ptr(key_fn);
        self.raw.value(slot)
    }

    /// Get-or-compute keyed by the identity of the producer's static type,
    /// with exclusive access to the installed value; every other value stays.
    pub fn get_mut<F: FnOnce(&mut LocalOnlyFnMap<V>) -> V>(&mut self, key_fn: F) -> (r: &mut V)
        requires
            forall|m: &mut LocalOnlyFnMap<V>| call_requires(key_fn, (m,)),
            forall|m: &mut LocalOnlyFnMap<V>, v: V|
                call_ensures(key_fn, (m,), v) ==> (*m).store().keeps((*final(m)).store()),
        ensures
            exists|key: TypeKey, mid: LocalOnlyFnMap<V>|
                {
                    &&& #[trigger] mid.store().slots().contains_key(key)
                    &&& old(self).store().keeps(mid.store())
                    &&& *r == mid.store().value_of(key)
                    &&& final(self).store().slots() == mid.store().slots()
                    &&& final(self).store().values() == mid.store().values().update(
                        mid.store().slots()[key] as int,
                        *final(r),
                    )
                    &&& old(self).store().slots().contains_key(key) ==> mid == *old(self)
                    &&& !old(self).store().slots().contains_key(key) ==> exists|m: &mut LocalOnlyFnMap<V>, v: V|
                        *m == *old(self) && call_ensures(key_fn, (m,), v) && mid.store().settled(
                            (*final(m)).store(),
                            key,
                            v,
                            mid.store().slots()[key],
                        )
                },
    {
        let slot = self.get_ptr(key_fn);
        self.raw.value_mut(slot)
    }

    /// Number of installed values.
    pub fn len(&self) -> (r: usize)
        ensures
            r == self.store().slots().len(),
            r == self.store().values().len(),
    {
        self.raw.len()
    }

    /// Drops every installed value.
    pub fn reset(&mut self)
        ensures
            final(self).store().fresh(),
    {
        self.raw.reset();
    }
}

impl<V> Default for LocalOnlyFnMap<V> {
    fn default() -> (r: Self)
        ensures
            r.store().fresh(),
    {
        Self::new()
    }
}

} // verus!
