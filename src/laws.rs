//! Laws of get-or-compute, stated over the backing store's model: `settled`
//! is one get-or-compute step under a key, `slots` and `values` are what the
//! store holds.
use vstd::prelude::*;

use type_key::TypeKey;

use crate::raw::RawFnMap;

verus! {

/// Asking again under a key that a step has settled hands back the same slot
/// and changes nothing: the second value is never installed.
pub proof fn lemma_settle_idempotent<V>(
    s0: RawFnMap<V>,
    s1: RawFnMap<V>,
    s2: RawFnMap<V>,
    key: TypeKey,
    v1: V,
    v2: V,
    r1: usize,
    r2: usize,
)
    requires
        s1.settled(s0, key, v1, r1),
        s2.settled(s1, key, v2, r2),
    ensures
        r2 == r1,
        s2.slots() == s1.slots(),
        s2.values() == s1.values(),
{
}

/// Settling one key leaves every other key with its slot and its value, and
/// afterwards both keys are present.
pub proof fn lemma_settle_independent<V>(
    s0: RawFnMap<V>,
    s1: RawFnMap<V>,
    key: TypeKey,
    other: TypeKey,
    v: V,
    r: usize,
)
    requires
        s1.settled(s0, key, v, r),
        s0.slots().contains_key(other),
        other != key,
        s0.slots_in_bounds(),
    ensures
        s1.slots().contains_key(key),
        s1.slots().contains_key(other),
        s1.slots()[other] == s0.slots()[other],
        s1.value_of(other) == s0.value_of(other),
{
}

/// Installing keys never moves a payload: every slot of the store before a
/// step holds the same payload after it, and every key keeps its slot.
pub proof fn lemma_settle_stable<V>(s0: RawFnMap<V>, s1: RawFnMap<V>, key: TypeKey, v: V, r: usize)
    requires
        s1.settled(s0, key, v, r),
    ensures
        s0.values().len() <= s1.values().len(),
        forall|i: int| 0 <= i < s0.values().len() ==> s1.values()[i] == s0.values()[i],
        forall|k: TypeKey| #[trigger] s0.slots().contains_key(k) ==> s1.slots().contains_key(k)
            && s1.slots()[k] == s0.slots()[k],
{
}

/// A fresh store, as `reset` leaves it, holds no key: the next request under
/// any key runs its producer, and the value it returns is installed.
pub proof fn lemma_fresh_recomputes<V>(s0: RawFnMap<V>, s1: RawFnMap<V>, key: TypeKey, v: V, r: usize)
    requires
        s0.fresh(),
        s1.settled(s0, key, v, r),
    ensures
        forall|k: TypeKey| !s0.slots().contains_key(k),
        r == 0,
        s1.slots().contains_key(key),
        s1.value_of(key) == v,
{
    assert(!s0.slots().dom().contains(key));
}

/// A producer that asks the store for another key while it runs: the inner
/// value is installed first, then the outer one, and both stay.
pub proof fn lemma_nested_settle<V>(
    s0: RawFnMap<V>,
    s1: RawFnMap<V>,
    s2: RawFnMap<V>,
    outer: TypeKey,
    inner: TypeKey,
    v_inner: V,
    v_outer: V,
    r_inner: usize,
    r_outer: usize,
)
    requires
        !s0.slots().contains_key(outer),
        outer != inner,
        s1.settled(s0, inner, v_inner, r_inner),
        s2.settled(s1, outer, v_outer, r_outer),
        s0.slots_in_bounds(),
    ensures
        s2.slots().contains_key(inner),
        s2.slots()[inner] == r_inner,
        s2.values()[r_inner as int] == s1.values()[r_inner as int],
        !s0.slots().contains_key(inner) ==> s2.value_of(inner) == v_inner,
        s2.slots().contains_key(outer),
        s2.slots()[outer] == r_outer,
        s2.value_of(outer) == v_outer,
{
}

/// Two racers that both missed a key and then settle it one after the other
/// get the same slot, and the value of the first one is the one installed.
pub proof fn lemma_racing_settles_coalesce<V>(
    s0: RawFnMap<V>,
    s1: RawFnMap<V>,
    s2: RawFnMap<V>,
    key: TypeKey,
    first: V,
    second: V,
    r1: usize,
    r2: usize,
)
    requires
        !s0.slots().contains_key(key),
        s1.settled(s0, key, first, r1),
        s2.settled(s1, key, second, r2),
    ensures
        r1 == r2,
        s2.slots() == s1.slots(),
        s2.values() == s1.values(),
        s2.value_of(key) == first,
{
}

} // verus!
