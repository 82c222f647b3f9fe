//! A simple cell holding one value.

use vstd::prelude::*;

verus! {

/// A cell holding one value, which can be read by copy, replaced, or
/// borrowed mutably.
#[derive(Debug)]
pub struct MyCell<T> {
    value: T,
}

impl<T> View for MyCell<T> {
    type V = T;

    closed spec fn view(&self) -> T {
        self.value
    }
}

impl<T> MyCell<T> {
    /// A cell holding `val`.
    pub fn new(val: T) -> (r: MyCell<T>)
        ensures
            r@ == val,
    {
        MyCell { value: val }
    }

    /// Stores `val`, dropping the value held before.
    pub fn set(&mut self, val: T)
        ensures
            final(self)@ == val,
    {
        self.value = val;
    }

    /// A copy of the value held.
    pub fn get(&self) -> (r: T) where T: Copy
        ensures
            r == self@,
    {
        self.value
    }

    /// A mutable reference to the value held.
    pub fn get_mut(&mut self) -> (r: &mut T)
        ensures
            *r == old(self)@,
            final(self)@ == *final(r),
    {
        &mut self.value
    }

    /// Stores `val` and gives back the value held before.
    pub fn replace(&mut self, val: T) -> (r: T) where T: Copy
        ensures
            r == old(self)@,
            final(self)@ == val,
    {
        let x = self.get();
        self.set(val);
        x
    }
}

} // verus!
