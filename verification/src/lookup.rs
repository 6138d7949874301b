//! Lookups in a sequence that fall back on a default.

use vstd::prelude::*;

verus! {

/// The element at `index`, or `default` where the sequence has no such index.
pub open spec fn value_or(items: Seq<i32>, index: int, default: i32) -> i32 {
    if 0 <= index < items.len() {
        items[index]
    } else {
        default
    }
}

/// The element of `vec` at `index`, or `default` where `index` is out of
/// range.
pub fn get_or_default(vec: &[i32], index: usize, default: i32) -> (found: i32)
    ensures
        found == value_or(vec@, index as int, default),
{
    broadcast use vstd::slice::axiom_slice_get_usize;

    if let Some(ble) = vec.get(index) {
        *ble
    } else {
        default
    }
}

/// The same lookup, written with a `match`.
pub fn get_or_default2(vec: &[i32], index: usize, default: i32) -> (found: i32)
    ensures
        found == value_or(vec@, index as int, default),
{
    broadcast use vstd::slice::axiom_slice_get_usize;

    match vec.get(index) {
        Some(ble) => *ble,
        _ => default,
    }
}

} // verus!
