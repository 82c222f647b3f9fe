//! Two small self-referencing types: [`MyS`], which may be moved, and
//! [`MyS2`], marked as one that must stay where it is once pinned.

use std::marker::PhantomPinned;
use vstd::prelude::*;

use crate::pointers::lib_ptr_a::{pinned_marker, ValPtr};

verus! {

/// A number and a pointer to it, set by [`MyS::put_ptr`].
#[derive(Debug)]
pub struct MyS {
    pub val: u8,
    pub ptr: Option<ValPtr>,
}

/// A number and a pointer to it, with the marker that keeps it from being
/// moved once pinned.
#[derive(Debug, Copy, Clone)]
pub struct MyS2 {
    pub val: u8,
    pub ptr: Option<ValPtr>,
    pub _mkr: PhantomPinned,
}

impl MyS {
    /// A value holding `val`, with its pointer not yet set.
    pub fn new(val: u8) -> (r: Self)
        ensures
            r.val == val,
            r.ptr is None,
    {
        MyS { val, ptr: None }
    }

    /// Points the pointer at the number.
    pub fn put_ptr(&mut self)
        ensures
            final(self).val == old(self).val,
            final(self).ptr is Some,
    {
        self.ptr = Some(ValPtr);
    }

    /// The number, read through the pointer, which must be set.
    pub fn get_val(&self) -> (r: u8)
        requires
            self.ptr is Some,
        ensures
            r == self.val,
    {
        self.val
    }

    /// Stores a new number; the pointer is kept.
    pub fn update_val(&mut self, val: u8)
        ensures
            final(self).val == val,
            final(self).ptr == old(self).ptr,
    {
        self.val = val;
    }

    /// Stores a new number through a mutable reference to it.
    pub fn update_val_ptr(&mut self, val: u8)
        ensures
            final(self).val == val,
            final(self).ptr == old(self).ptr,
    {
        let place: &mut u8 = &mut self.val;
        *place = val;
    }
}

impl MyS2 {
    /// A value holding `val`, with its pointer not yet set.
    pub fn new(val: u8) -> (r: Self)
        ensures
            r.val == val,
            r.ptr is None,
    {
        MyS2 { val, ptr: None, _mkr: pinned_marker() }
    }

    /// Points the pointer at the number.
    pub fn put_ptr(&mut self)
        ensures
            final(self).val == old(self).val,
            final(self).ptr is Some,
    {
        self.ptr = Some(ValPtr);
    }

    /// The number, read through the pointer, which must be set.
    pub fn get_val(&self) -> (r: u8)
        requires
            self.ptr is Some,
        ensures
            r == self.val,
    {
        self.val
    }

    /// Stores a new number; the pointer is kept.
    pub fn update_val(&mut self, val: u8)
        ensures
            final(self).val == val,
            final(self).ptr == old(self).ptr,
    {
        self.val = val;
    }

    /// Stores a new number through a mutable reference to it.
    pub fn update_val_ptr(&mut self, val: u8)
        ensures
            final(self).val == val,
            final(self).ptr == old(self).ptr,
    {
        let place: &mut u8 = &mut self.val;
        *place = val;
    }
}

} // verus!
