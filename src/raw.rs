use vstd::prelude::*;

use type_key::TypeKey;

use crate::directory::{Directory, Val};

verus! {

/// The backing store: an append-only arena of payloads and a directory from
/// identity token to the arena slot of that token's payload.
///
/// A slot handed out stays attached to its payload until `reset`: installing
/// further keys only appends to the arena.
pub struct RawFnMap<V> {
    map: Directory,
    arena: Vec<V>,
}

impl<V> RawFnMap<V> {
    #[verifier::type_invariant]
    spec fn inv(&self) -> bool {
        &&& self.map@.dom().finite()
        &&& self.map@.len() == self.arena@.len()
        &&& forall|k: TypeKey| #[trigger] self.map@.contains_key(k) ==> self.map@[k].slot() < self.arena@.len()
        &&& forall|k1: TypeKey, k2: TypeKey|
            #[trigger] self.map@.contains_key(k1) && #[trigger] self.map@.contains_key(k2) && k1 != k2
                ==> self.map@[k1].slot() != self.map@[k2].slot()
    }

    /// The slot installed under each key.
    pub closed spec fn slots(&self) -> Map<TypeKey, usize> {
        Map::new(|k: TypeKey| self.map@.contains_key(k), |k: TypeKey| self.map@[k].slot())
    }

    /// The payloads, by slot.
    pub closed spec fn values(&self) -> Seq<V> {
        self.arena@
    }

    /// The payload installed under `key`.
    pub open spec fn value_of(&self, key: TypeKey) -> V {
        self.values()[self.slots()[key] as int]
    }

    /// Every installed key points at a payload of the arena.
    pub open spec fn slots_in_bounds(&self) -> bool {
        forall|k: TypeKey| #[trigger] self.slots().contains_key(k) ==> self.slots()[k] < self.values().len()
    }

    /// No two installed keys share a slot.
    pub open spec fn slots_distinct(&self) -> bool {
        forall|k1: TypeKey, k2: TypeKey|
            #[trigger] self.slots().contains_key(k1) && #[trigger] self.slots().contains_key(k2) && k1 != k2
                ==> self.slots()[k1] != self.slots()[k2]
    }

    /// What every store satisfies.
    pub open spec fn well_formed(&self) -> bool {
        &&& self.slots_in_bounds()
        &&& self.slots_distinct()
    }

    /// Every key installed in `self` is installed in `post`, in the same slot
    /// and with the same payload.
    pub open spec fn keeps(&self, post: Self) -> bool {
        forall|k: TypeKey| #[trigger] self.slots().contains_key(k) ==> {
            &&& post.slots().contains_key(k)
            &&& post.slots()[k] == self.slots()[k]
            &&& post.value_of(k) == self.value_of(k)
        }
    }

    /// Nothing is installed.
    pub open spec fn fresh(&self) -> bool {
        &&& self.slots().dom() == Set::<TypeKey>::empty()
        &&& self.values().len() == 0
    }

    /// `self` is `pre` after settling `key` with `value`, and `r` is the slot
    /// now installed under `key`: a key already present keeps its payload and
    /// `value` is discarded; otherwise `value` is appended and installed.
    pub open spec fn settled(&self, pre: Self, key: TypeKey, value: V, r: usize) -> bool {
        if pre.slots().contains_key(key) {
            &&& r == pre.slots()[key]
            &&& self.slots() == pre.slots()
            &&& self.values() == pre.values()
        } else {
            &&& r == pre.values().len()
            &&& self.slots() == pre.slots().insert(key, r)
            &&& self.values() == pre.values().push(value)
        }
    }

    pub fn new() -> (r: Self)
        ensures
            r.fresh(),
    {
        let r = RawFnMap { map: Directory::new(), arena: Vec::new() };
        assert(r.slots().dom() =~= Set::<TypeKey>::empty());
        r
    }

    /// Looks up the slot installed under `key`.
    pub fn get(&self, key: &TypeKey) -> (r: Option<usize>)
        ensures
            self.slots().contains_key(*key) ==> r == Some(self.slots()[*key]),
            !self.slots().contains_key(*key) ==> r.is_none(),
            r matches Some(s) ==> s < self.values().len(),
            self.well_formed(),
    {
        proof {
            use_type_invariant(self);
        }
        self.map.get(key)
    }

    /// Installs `value` under `key`, which must be absent, and returns its slot.
    pub fn insert(&mut self, key: TypeKey, value: V) -> (r: usize)
        requires
            !old(self).slots().contains_key(key),
        ensures
            final(self).settled(*old(self), key, value, r),
            r < final(self).values().len(),
            final(self).well_formed(),
            old(self).keeps(*final(self)),
    {
        proof {
            use_type_invariant(&*self);
        }
        let slot = self.arena.len();
        let ghost m0 = self.map@;
        assert(!m0.contains_key(key)) by {
            assert(old(self).slots().dom().contains(key) == m0.contains_key(key));
        }
        // the store is rebuilt from its parts, so that no half-updated store
        // is ever visible
        let mut taken = RawFnMap::new();
        std::mem::swap(&mut taken, self);
        let RawFnMap { mut map, mut arena } = taken;
        arena.push(value);
        map.insert(key, Val::new(slot));
        proof {
            assert(map@.dom() =~= m0.dom().insert(key));
        }
        *self = RawFnMap { map, arena };
        assert(self.slots() =~= old(self).slots().insert(key, slot));
        assert(old(self).keeps(*self));
        slot
    }

    /// Installs `value` under `key` unless `key` is already present, in which
    /// case the installed payload is kept and `value` is dropped. Returns the
    /// slot installed under `key`.
    pub fn get_or_insert(&mut self, key: TypeKey, value: V) -> (r: usize)
        ensures
            final(self).settled(*old(self), key, value, r),
            r < final(self).values().len(),
            final(self).well_formed(),
            old(self).keeps(*final(self)),
    {
        proof {
            use_type_invariant(&*self);
        }
        match self.get(&key) {
            Some(slot) => slot,
            None => self.insert(key, value),
        }
    }

    /// The payload in `slot`.
    pub fn value(&self, slot: usize) -> (r: &V)
        requires
            slot < self.values().len(),
        ensures
            *r == self.values()[slot as int],
    {
        &self.arena[slot]
    }

    /// Exclusive access to the payload in `slot`; nothing else changes.
    pub fn value_mut(&mut self, slot: usize) -> (r: &mut V)
        requires
            slot < old(self).values().len(),
        ensures
            *r == old(self).values()[slot as int],
            final(self).slots() == old(self).slots(),
            final(self).values() == old(self).values().update(slot as int, *final(r)),
            final(self).well_formed(),
    {
        proof {
            use_type_invariant(&*self);
        }
        &mut self.arena[slot]
    }

    /// Number of installed keys, which is also the number of payloads.
    pub fn len(&self) -> (r: usize)
        ensures
            r == self.slots().len(),
            r == self.values().len(),
    {
        proof {
            use_type_invariant(self);
            assert(self.slots().dom() =~= self.map@.dom());
        }
        self.map.len()
    }

    /// Drops every installed payload: the directory is cleared first, then the
    /// arena. Slots handed out before are no longer attached to anything.
    pub fn reset(&mut self)
        ensures
            final(self).fresh(),
    {
        let mut taken = RawFnMap::new();
        std::mem::swap(&mut taken, self);
        let RawFnMap { mut map, mut arena } = taken;
        // the directory is cleared first, then the arena drops the payloads
        map.clear();
        arena.clear();
        proof {
            assert(map@.dom() =~= Set::<TypeKey>::empty());
        }
        *self = RawFnMap { map, arena };
        assert(self.slots().dom() =~= Set::<TypeKey>::empty());
    }
}

impl<V> Default for RawFnMap<V> {
    fn default() -> (r: Self)
        ensures
            r.fresh(),
    {
        Self::new()
    }
}

} // verus!
