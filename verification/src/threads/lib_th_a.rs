//! The work that the first thread demonstrations hand to a thread.

use vstd::prelude::*;

verus! {

/// The vector `v` with `val` pushed at its end: what a spawned thread
/// gives back after pushing a value.
pub fn push_value<T>(v: Vec<T>, val: T) -> (r: Vec<T>)
    ensures
        r@ == v@.push(val),
{
    let mut v = v;
    v.push(val);
    v
}

} // verus!
