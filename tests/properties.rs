use std::cell::Cell;
use std::rc::Rc;

use fn_map::directory::Val;
use fn_map::raw::RawFnMap;
use fn_map::{FnMap, LocalOnlyFnMap};
use type_key::TypeKey;

fn counting_one(calls: Rc<Cell<u32>>) -> impl FnOnce(&mut FnMap<i32>) -> i32 {
    move |_| {
        calls.set(calls.get() + 1);
        1
    }
}

fn counting_two(calls: Rc<Cell<u32>>) -> impl FnOnce(&mut FnMap<i32>) -> i32 {
    move |_| {
        calls.set(calls.get() + 1);
        1
    }
}

fn plus_one(calls: Rc<Cell<u32>>) -> impl FnOnce(&mut FnMap<i32>) -> i32 {
    move |m| *m.get(counting_one(calls)) + 1
}

fn constant(x: i32) -> impl FnOnce(&mut FnMap<i32>) -> i32 {
    move |_| x
}

#[test]
fn basic_memoization() {
    let calls = Rc::new(Cell::new(0));
    let mut s = FnMap::new();
    let a = *s.get(counting_one(calls.clone()));
    let b = *s.get(counting_one(calls.clone()));
    assert_eq!(a, 1);
    assert_eq!(b, 1);
    assert_eq!(calls.get(), 1);
}

#[test]
fn repeated_get_same_slot() {
    let calls = Rc::new(Cell::new(0));
    let mut s = FnMap::new();
    let p = s.get_ptr(counting_one(calls.clone()));
    let q = s.get_ptr(counting_one(calls.clone()));
    assert_eq!(p, q);
    assert_eq!(calls.get(), 1);
    assert_eq!(s.len(), 1);
}

#[test]
fn reentrant_compute() {
    let calls = Rc::new(Cell::new(0));
    let mut s = FnMap::new();
    let a = *s.get(counting_one(calls.clone()));
    let b = *s.get(plus_one(calls.clone()));
    assert_eq!(a, 1);
    assert_eq!(b, 2);
    assert_eq!(calls.get(), 1);
    assert_eq!(s.len(), 2);
}

#[test]
fn order_independence() {
    let calls = Rc::new(Cell::new(0));
    let mut s = FnMap::new();
    let b = *s.get(plus_one(calls.clone()));
    let a = *s.get(counting_one(calls.clone()));
    assert!(a == 1 && b == 2);

    let mut t = FnMap::new();
    let a = *t.get(counting_one(calls.clone()));
    let b = *t.get(plus_one(calls.clone()));
    assert!(a == 1 && b == 2);
    assert_eq!(calls.get(), 2);
}

#[test]
fn distinct_sites_distinct_values() {
    let calls = Rc::new(Cell::new(0));
    let mut s = FnMap::new();
    let a = *s.get(counting_one(calls.clone()));
    let b = *s.get(counting_two(calls.clone()));
    assert_eq!(a, 1);
    assert_eq!(b, 1);
    assert_eq!(calls.get(), 2);
    assert_eq!(s.len(), 2);
}

#[test]
fn identity_by_site() {
    let mut s = FnMap::new();
    let a = *s.get(constant(1));
    let b = *s.get(constant(2));
    assert_eq!(a, 1);
    assert_eq!(b, 1);
    assert_eq!(s.len(), 1);
}

#[test]
fn reset_semantics() {
    let calls = Rc::new(Cell::new(0));
    let mut s = FnMap::new();
    assert_eq!(*s.get(counting_one(calls.clone())), 1);
    s.reset();
    assert_eq!(s.len(), 0);
    assert_eq!(*s.get(counting_one(calls.clone())), 1);
    assert_eq!(calls.get(), 2);
}

#[test]
fn pointer_stability() {
    let mut s = FnMap::new();
    let p = s.get_ptr(constant(7));
    let calls = Rc::new(Cell::new(0));
    let q = s.get_ptr(counting_one(calls.clone()));
    let r = s.get_ptr(plus_one(calls.clone()));
    assert_ne!(p, q);
    assert_ne!(q, r);
    assert_eq!(s.get_ptr(constant(8)), p);
    assert_eq!(*s.get(constant(9)), 7);
}

#[test]
fn get_mut_updates_installed_value() {
    let mut s = FnMap::new();
    *s.get_mut(constant(3)) += 10;
    assert_eq!(*s.get(constant(0)), 13);
    assert_eq!(s.len(), 1);
}

#[test]
fn explicit_key() {
    let mut s = FnMap::new();
    let key = TypeKey::of::<u8>();
    let p = s.get_ptr_by(key, |_: &mut FnMap<i32>| 5);
    let q = s.get_ptr_by(key, |_: &mut FnMap<i32>| 6);
    assert_eq!(p, q);
    assert_eq!(*s.get(|_: &mut FnMap<i32>| 4), 4);
    assert_eq!(s.len(), 2);
}

#[test]
fn default_stores_are_empty() {
    let s: FnMap<i32> = FnMap::default();
    assert_eq!(s.len(), 0);
    let t: LocalOnlyFnMap<i32> = LocalOnlyFnMap::default();
    assert_eq!(t.len(), 0);
    let r: RawFnMap<i32> = RawFnMap::default();
    assert_eq!(r.len(), 0);
}

#[test]
fn local_only_reset_and_get_mut() {
    fn seven(_: &mut LocalOnlyFnMap<u64>) -> u64 {
        7
    }
    let mut s = LocalOnlyFnMap::new();
    assert_eq!(*s.get(seven), 7);
    *s.get_mut(seven) = 8;
    assert_eq!(*s.get(seven), 8);
    assert_eq!(s.get_ptr(seven), 0);
    s.reset();
    assert_eq!(s.len(), 0);
    assert_eq!(*s.get(seven), 7);
}

struct Counted(Rc<Cell<u32>>);

impl Drop for Counted {
    fn drop(&mut self) {
        self.0.set(self.0.get() + 1);
    }
}

#[test]
fn destruction_runs_each_destructor_once() {
    let drops = Rc::new(Cell::new(0));
    let mut s = FnMap::new();
    let d1 = drops.clone();
    s.get(move |_: &mut FnMap<Counted>| Counted(d1));
    let d2 = drops.clone();
    s.get(move |_: &mut FnMap<Counted>| Counted(d2));
    assert_eq!(drops.get(), 0);
    s.reset();
    assert_eq!(drops.get(), 2);
    let d3 = drops.clone();
    s.get(move |_: &mut FnMap<Counted>| Counted(d3));
    drop(s);
    assert_eq!(drops.get(), 3);
}

#[test]
fn discarded_value_is_dropped_once() {
    let drops = Rc::new(Cell::new(0));
    let mut raw = RawFnMap::new();
    let key = TypeKey::of::<u16>();
    raw.get_or_insert(key, Counted(drops.clone()));
    raw.get_or_insert(key, Counted(drops.clone()));
    assert_eq!(drops.get(), 1);
    drop(raw);
    assert_eq!(drops.get(), 2);
}

#[test]
fn concurrent_coalesce() {
    let mut raw = RawFnMap::new();
    let key = TypeKey::of::<u32>();
    assert_eq!(raw.get(&key), None);
    assert_eq!(raw.get(&key), None);
    let first = raw.get_or_insert(key, 10);
    let second = raw.get_or_insert(key, 20);
    assert_eq!(first, second);
    assert_eq!(*raw.value(first), 10);
    assert_eq!(raw.len(), 1);
}

#[test]
fn raw_insert_lookup_reset() {
    let mut raw = RawFnMap::new();
    let k1 = TypeKey::of::<u8>();
    let k2 = TypeKey::of::<i8>();
    assert_eq!(raw.insert(k1, "a"), 0);
    assert_eq!(raw.insert(k2, "b"), 1);
    assert_eq!(raw.get(&k1), Some(0));
    assert_eq!(raw.get(&k2), Some(1));
    assert_eq!(*raw.value(1), "b");
    *raw.value_mut(0) = "c";
    assert_eq!(*raw.value(0), "c");
    assert_eq!(raw.len(), 2);
    raw.reset();
    assert_eq!(raw.get(&k1), None);
    assert_eq!(raw.len(), 0);
    assert_eq!(raw.insert(k2, "d"), 0);
}

#[test]
fn val_inner_is_its_slot() {
    let v = Val::new(4);
    assert_eq!(v.inner(), 4);
}

#[test]
fn type_keys_follow_types() {
    assert_eq!(TypeKey::of::<u8>(), TypeKey::of_val(&3u8));
    assert_ne!(TypeKey::of::<u8>(), TypeKey::of::<u16>());
}

#[test]
fn value_by_slot() {
    let mut s = FnMap::new();
    let p = s.get_ptr(constant(11));
    let q = s.get_ptr(|_: &mut FnMap<i32>| 12);
    assert_eq!(*s.value(p), 11);
    assert_eq!(*s.value(q), 12);
    let mut t = LocalOnlyFnMap::new();
    let r = t.get_ptr(|_: &mut LocalOnlyFnMap<i32>| 13);
    assert_eq!(*t.value(r), 13);
}

#[test]
fn one_payload_per_key() {
    let mut raw = RawFnMap::new();
    let k = TypeKey::of::<u64>();
    raw.get_or_insert(k, 1);
    raw.get_or_insert(k, 2);
    raw.get_or_insert(TypeKey::of::<i64>(), 3);
    assert_eq!(raw.len(), 2);
    assert_eq!(*raw.value(raw.len() - 1), 3);
}
