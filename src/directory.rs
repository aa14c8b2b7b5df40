use vstd::prelude::*;

use hashbrown::HashMap;
use nohash_hasher::BuildNoHashHasher;
use type_key::TypeKey;

verus! {

/// The identity token of a producer, derived from the producer's static type.
#[verifier::external_type_specification]
#[verifier::external_body]
pub struct ExTypeKey(TypeKey);

/// Relies on type_key's `TypeKey::of_val`: the token depends on the static type of its
/// argument alone, never on the captured data; nothing more is promised.
pub assume_specification<T: ?Sized>[ TypeKey::of_val::<T> ](v: &T) -> TypeKey;

/// A value cell: the arena slot that holds one installed payload.
pub struct Val {
    slot: usize,
}

impl Val {
    pub fn new(slot: usize) -> (r: Val)
        ensures
            r.slot() == slot,
    {
        Val { slot }
    }

    pub closed spec fn slot(&self) -> usize {
        self.slot
    }

    /// The slot of the payload that this cell stands for.
    pub fn inner(&self) -> (r: usize)
        ensures
            r == self.slot(),
    {
        self.slot
    }
}

/// Directory from identity token to value cell, kept in a hashbrown `HashMap`
/// with nohash-hasher's `BuildNoHashHasher` (the token's hash is passed
/// through). The map is held opaque: hashbrown's allocator parameter has a
/// bound that cannot be named from outside the crate, so the map type itself
/// cannot be declared.
#[verifier::external_body]
pub struct Directory {
    map: HashMap<TypeKey, Val, BuildNoHashHasher<u64>>,
}

/// What a directory holds: each key with its cell.
pub uninterp spec fn entries(d: Directory) -> Map<TypeKey, Val>;

impl Directory {
    pub open spec fn view(&self) -> Map<TypeKey, Val> {
        entries(*self)
    }

    /// Relies on hashbrown's `HashMap::default`: a map with no entries.
    #[verifier::external_body]
    pub(crate) fn new() -> (r: Directory)
        ensures
            entries(r).dom() == Set::<TypeKey>::empty(),
    {
        Directory { map: HashMap::default() }
    }

    /// Relies on hashbrown's `HashMap::get`: the cell stored under `key`, if any
    /// (keys are compared with `TypeKey`'s derived equality).
    #[verifier::external_body]
    pub(crate) fn get(&self, key: &TypeKey) -> (r: Option<usize>)
        ensures
            entries(*self).contains_key(*key) ==> r == Some(entries(*self)[*key].slot()),
            !entries(*self).contains_key(*key) ==> r.is_none(),
    {
        self.map.get(key).map(|v| v.slot)
    }

    /// Relies on hashbrown's `HashMap::insert`: afterwards `key` maps to `val`
    /// and every other entry is unchanged.
    #[verifier::external_body]
    pub(crate) fn insert(&mut self, key: TypeKey, val: Val)
        ensures
            entries(*final(self)) == entries(*old(self)).insert(key, val),
    {
        self.map.insert(key, val);
    }

    /// Relies on hashbrown's `HashMap::clear`: no entries remain.
    #[verifier::external_body]
    pub(crate) fn clear(&mut self)
        ensures
            entries(*final(self)).dom() == Set::<TypeKey>::empty(),
    {
        self.map.clear();
    }

    /// Relies on hashbrown's `HashMap::len`: the number of entries.
    #[verifier::external_body]
    pub(crate) fn len(&self) -> (r: usize)
        ensures
            r == entries(*self).len(),
    {
        self.map.len()
    }
}

} // verus!
