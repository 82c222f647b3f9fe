//! A self-referencing value built in two states: [`MySelfRefState`] holds
//! the number alone, and [`MySelfRefState::put_ptr`] turns it into a boxed
//! [`MySelfRefStatePin`] whose pointer is set as it is made, so that no
//! value with an unset pointer ever leaves this module.

use std::marker::PhantomPinned;
use vstd::prelude::*;

use super::lib_ptr_a::{pinned_marker, ValPtr};
use crate::nums::MyNums;

verus! {

/// The first state of a self-referencing number: the number alone.
pub struct MySelfRefState<T: MyNums> {
    val: T,
}

impl<T: MyNums> MySelfRefState<T> {
    /// The number held.
    pub closed spec fn value(&self) -> T {
        self.val
    }

    /// The first state, holding `val`.
    pub fn new(val: T) -> (r: Self)
        ensures
            r.value() == val,
    {
        MySelfRefState { val }
    }

    /// Moves the number into a box and points the pointer at it there.
    pub fn put_ptr(self) -> (r: Box<MySelfRefStatePin<T>>)
        ensures
            r.val == self.value(),
            r.ptr is Some,
    {
        Box::new(MySelfRefStatePin { val: self.val, ptr: Some(ValPtr), _mkr: pinned_marker() })
    }
}

/// The second state of a self-referencing number: the number, a pointer to
/// it, and the marker that keeps it from being moved once pinned.
pub struct MySelfRefStatePin<T: MyNums> {
    /// The number.
    pub val: T,
    /// The pointer to the number; `None` stands for a null pointer.
    pub ptr: Option<ValPtr>,
    /// The marker that makes the type `!Unpin`.
    pub _mkr: PhantomPinned,
}

impl<T: MyNums> MySelfRefStatePin<T> {
    /// The number, read through the pointer, which must be set.
    pub fn get_val_by_ptr(&self) -> (r: T)
        requires
            self.ptr is Some,
        ensures
            r == self.val,
    {
        self.val
    }

    /// Stores a new number in place; the pointer is kept.
    pub fn update_val_by_ptr(&mut self, val: T)
        ensures
            final(self).val == val,
            final(self).ptr == old(self).ptr,
    {
        let place: &mut T = &mut self.val;
        *place = val;
    }

    /// The value itself, its number, and the number read through the
    /// pointer, which must be set.
    pub fn get_addresses(&self) -> (r: (&Self, &T, &T))
        requires
            self.ptr is Some,
        ensures
            r.0 == self,
            *r.1 == self.val,
            *r.2 == self.val,
    {
        (self, &self.val, &self.val)
    }
}

} // verus!
