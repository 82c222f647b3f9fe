//! Self-referencing values: one that may be moved freely, and one marked
//! as one that must stay where it is (`!Unpin`).

use std::marker::PhantomPinned;
use vstd::prelude::*;

verus! {

/// The marker that makes a type `!Unpin`: a value of it must not be moved
/// once pinned.
#[verifier::external_type_specification]
#[verifier::external_body]
pub struct ExPhantomPinned(PhantomPinned);

/// The `PhantomPinned` marker value of std (a unit value; nothing is
/// claimed of it).
#[verifier::external_body]
pub(crate) fn pinned_marker() -> (r: PhantomPinned) {
    PhantomPinned
}

/// Reads the number at place `a`, adds one to the number at place `b`,
/// and reads place `a` again; gives both reads. The places are indices
/// into `mem`, standing for addresses: when `a` and `b` are the same place
/// the second read sees the increment, otherwise both reads agree. The
/// number at `b` must be below `u16::MAX` (the increment overflows there).
pub fn danger_pointer_val_inc(mem: &mut [u16], a: usize, b: usize) -> (r: (u16, u16))
    requires
        a < old(mem)@.len(),
        b < old(mem)@.len(),
        old(mem)@[b as int] < u16::MAX,
    ensures
        final(mem)@ == old(mem)@.update(b as int, (old(mem)@[b as int] + 1) as u16),
        r.0 == old(mem)@[a as int],
        r.1 == final(mem)@[a as int],
{
    let before = mem[a];
    let bumped = mem[b] + 1;
    mem[b] = bumped;
    let after = mem[a];
    (before, after)
}

/// Rewrites a copy of the third element of `vec` (which must have at least
/// three) to `0x8040_2010`, points a read pointer and a write pointer at
/// its low 16-bit half, and increments that half through the write
/// pointer: the reads before and after give `(8208, 8209)`. The halves are
/// laid out low half first, as on a little-endian machine.
pub fn unsafe_raw_vector_element_mutability(vec: Vec<usize>) -> (r: (u16, u16))
    requires
        vec@.len() >= 3,
    ensures
        r == (8208u16, 8209u16),
{
    let _element: usize = vec[2];
    let element: u32 = 2151686160;
    let low: u16 = (element % 65536) as u16;
    let high: u16 = (element / 65536) as u16;
    let mut halves: [u16; 2] = [low, high];
    assert(low == 8208);
    danger_pointer_val_inc(&mut halves, 0, 0)
}

/// The pointer a self-referencing value holds once it is set: it points at
/// the `val` field of the very value that holds it. Here the pointer
/// designates that field wherever the value is moved to; a raw address
/// would keep naming the place the value was moved away from, and reading
/// through it after a move reads whatever is left there.
#[derive(Debug, Clone, Copy, PartialEq, Eq, Structural)]
pub struct ValPtr;

/// A number and a pointer to that number, set by [`MySelfReference::put_ptr`].
#[derive(Debug)]
pub struct MySelfReference {
    pub(crate) val: u8,
    pub(crate) ptr: Option<ValPtr>,
}

impl MySelfReference {
    /// The number held.
    pub closed spec fn value(&self) -> u8 {
        self.val
    }

    /// Whether the pointer has been set.
    pub closed spec fn ptr_set(&self) -> bool {
        self.ptr is Some
    }

    /// A value holding `val`, with its pointer not yet set.
    pub fn new(val: u8) -> (r: Self)
        ensures
            r.value() == val,
            !r.ptr_set(),
    {
        MySelfReference { val, ptr: None }
    }

    /// Whether the pointer has been set.
    pub fn ptr_is_set(&self) -> (r: bool)
        ensures
            r == self.ptr_set(),
    {
        self.ptr.is_some()
    }

    /// Points the pointer at the number.
    pub fn put_ptr(&mut self)
        ensures
            final(self).value() == old(self).value(),
            final(self).ptr_set(),
    {
        self.ptr = Some(ValPtr);
    }

    /// The number, read through the pointer, which must be set.
    pub fn get_val(&self) -> (r: u8)
        requires
            self.ptr_set(),
        ensures
            r == self.value(),
    {
        self.val
    }

    /// Stores a new number; the pointer, if set, sees it.
    pub fn update_val(&mut self, val: u8)
        ensures
            final(self).value() == val,
            final(self).ptr_set() == old(self).ptr_set(),
    {
        self.val = val;
    }

    /// Stores a new number through a mutable reference to it; the same as
    /// [`MySelfReference::update_val`].
    pub fn update_val_ptr(&mut self, val: u8)
        ensures
            final(self).value() == val,
            final(self).ptr_set() == old(self).ptr_set(),
    {
        let place: &mut u8 = &mut self.val;
        *place = val;
    }

    /// The number, and the number read through the pointer, which must be
    /// set: both are the same.
    pub fn get_addresses(&self) -> (r: (&u8, &u8))
        requires
            self.ptr_set(),
        ensures
            *r.0 == self.value(),
            *r.1 == self.value(),
    {
        (&self.val, &self.val)
    }
}

/// A number and a pointer to that number, marked as a value that must not
/// be moved once pinned.
#[derive(Debug, Copy, Clone)]
pub struct MySelfReferencePinned {
    pub(crate) val: u8,
    pub(crate) ptr: Option<ValPtr>,
    _mkr: PhantomPinned,
}

impl MySelfReferencePinned {
    /// The number held.
    pub closed spec fn value(&self) -> u8 {
        self.val
    }

    /// Whether the pointer has been set.
    pub closed spec fn ptr_set(&self) -> bool {
        self.ptr is Some
    }

    /// A value holding `val`, with its pointer not yet set.
    pub fn new(val: u8) -> (r: Self)
        ensures
            r.value() == val,
            !r.ptr_set(),
    {
        MySelfReferencePinned { val, ptr: None, _mkr: pinned_marker() }
    }

    /// Whether the pointer has been set.
    pub fn ptr_is_set(&self) -> (r: bool)
        ensures
            r == self.ptr_set(),
    {
        self.ptr.is_some()
    }

    /// Points the pointer at the number.
    pub fn put_ptr(&mut self)
        ensures
            final(self).value() == old(self).value(),
            final(self).ptr_set(),
    {
        self.ptr = Some(ValPtr);
    }

    /// The number, read through the pointer, which must be set.
    pub fn get_val(&self) -> (r: u8)
        requires
            self.ptr_set(),
        ensures
            r == self.value(),
    {
        self.val
    }

    /// Stores a new number; the pointer, if set, sees it.
    pub fn update_val(&mut self, val: u8)
        ensures
            final(self).value() == val,
            final(self).ptr_set() == old(self).ptr_set(),
    {
        self.val = val;
    }

    /// Points the pointer at the number; the same as
    /// [`MySelfReferencePinned::put_ptr`]. Setting the pointer changes the
    /// value, so it takes the value mutably rather than writing through a
    /// shared reference.
    pub fn put_ptr_cast(&mut self)
        ensures
            final(self).value() == old(self).value(),
            final(self).ptr_set(),
    {
        self.ptr = Some(ValPtr);
    }

    /// Stores a new number; the same as [`MySelfReferencePinned::update_val`],
    /// taking the value mutably rather than writing through a shared
    /// reference.
    pub fn update_val_cast(&mut self, val: u8)
        ensures
            final(self).value() == val,
            final(self).ptr_set() == old(self).ptr_set(),
    {
        self.val = val;
    }

    /// Stores a new number through the pointer, which must be set.
    pub fn update_val_ptr_cast(&mut self, val: u8)
        requires
            old(self).ptr_set(),
        ensures
            final(self).value() == val,
            final(self).ptr_set(),
    {
        match self.ptr {
            Some(ValPtr) => {
                let place: &mut u8 = &mut self.val;
                *place = val;
            },
            None => {},
        }
    }

    /// Stores a new number through a mutable reference to it; the same as
    /// [`MySelfReferencePinned::update_val`].
    pub fn update_val_ptr(&mut self, val: u8)
        ensures
            final(self).value() == val,
            final(self).ptr_set() == old(self).ptr_set(),
    {
        let place: &mut u8 = &mut self.val;
        *place = val;
    }

    /// The number, and the number read through the pointer, which must be
    /// set: both are the same.
    pub fn get_addresses(&self) -> (r: (&u8, &u8))
        requires
            self.ptr_set(),
        ensures
            *r.0 == self.value(),
            *r.1 == self.value(),
    {
        (&self.val, &self.val)
    }
}

} // verus!
