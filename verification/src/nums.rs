//! The `MyNums` trait: the signed and unsigned machine integers from one
//! to eight bytes (and the pointer-sized ones), treated as one family of
//! numbers.

use vstd::prelude::*;

verus! {

/// The value `v` as a `usize`, or 0 where `v` does not fit one.
pub open spec fn usize_or_zero(v: int) -> int {
    if 0 <= v <= usize::MAX {
        v
    } else {
        0
    }
}

/// The value `v` as an `isize`, or 0 where `v` does not fit one.
pub open spec fn isize_or_zero(v: int) -> int {
    if isize::MIN <= v <= isize::MAX {
        v
    } else {
        0
    }
}

/// A machine integer: a value that can be added, started from zero, and
/// read back as a `usize` or an `isize` (0 when it does not fit, as a
/// failed conversion gives).
pub trait MyNums: Copy + Sized {
    /// The mathematical value of the number.
    spec fn num_value(&self) -> int;

    /// The least value of the type.
    spec fn min_value() -> int;

    /// The greatest value of the type.
    spec fn max_value() -> int;

    /// Every number lies in the range of its type, and that range holds 0.
    proof fn lemma_in_range(x: Self)
        ensures
            Self::min_value() <= x.num_value() <= Self::max_value(),
            Self::min_value() <= 0 <= Self::max_value(),
    ;

    /// The number 0 (the `Default` of the type).
    fn zero() -> (r: Self)
        ensures
            r.num_value() == 0,
    ;

    /// The sum of two numbers, where it does not overflow.
    fn add_num(self, other: Self) -> (r: Self)
        requires
            Self::min_value() <= self.num_value() + other.num_value() <= Self::max_value(),
        ensures
            r.num_value() == self.num_value() + other.num_value(),
    ;

    /// The sum of two numbers, or `None` where it overflows the type.
    fn checked_add_num(self, other: Self) -> (r: Option<Self>)
        ensures
            r is None <==> !(Self::min_value() <= self.num_value() + other.num_value()
                <= Self::max_value()),
            r matches Some(v) ==> v.num_value() == self.num_value() + other.num_value(),
    ;

    /// The number as a `usize`, or 0 where it is negative or too large.
    fn as_usize(self) -> (r: usize)
        ensures
            r == usize_or_zero(self.num_value()),
    ;

    /// The number as an `isize`, or 0 where it does not fit.
    fn as_isize(self) -> (r: isize)
        ensures
            r == isize_or_zero(self.num_value()),
    ;
}

impl MyNums for u8 {
    open spec fn num_value(&self) -> int {
        *self as int
    }

    open spec fn min_value() -> int {
        0
    }

    open spec fn max_value() -> int {
        u8::MAX as int
    }

    proof fn lemma_in_range(x: Self) {
    }

    fn zero() -> (r: Self) {
        0
    }

    fn add_num(self, other: Self) -> (r: Self) {
        self + other
    }

    fn checked_add_num(self, other: Self) -> (r: Option<Self>) {
        self.checked_add(other)
    }

    fn as_usize(self) -> (r: usize) {
        self as usize
    }

    fn as_isize(self) -> (r: isize) {
        self as isize
    }
}

impl MyNums for u16 {
    open spec fn num_value(&self) -> int {
        *self as int
    }

    open spec fn min_value() -> int {
        0
    }

    open spec fn max_value() -> int {
        u16::MAX as int
    }

    proof fn lemma_in_range(x: Self) {
    }

    fn zero() -> (r: Self) {
        0
    }

    fn add_num(self, other: Self) -> (r: Self) {
        self + other
    }

    fn checked_add_num(self, other: Self) -> (r: Option<Self>) {
        self.checked_add(other)
    }

    fn as_usize(self) -> (r: usize) {
        self as usize
    }

    fn as_isize(self) -> (r: isize) {
        self as isize
    }
}

impl MyNums for u32 {
    open spec fn num_value(&self) -> int {
        *self as int
    }

    open spec fn min_value() -> int {
        0
    }

    open spec fn max_value() -> int {
        u32::MAX as int
    }

    proof fn lemma_in_range(x: Self) {
    }

    fn zero() -> (r: Self) {
        0
    }

    fn add_num(self, other: Self) -> (r: Self) {
        self + other
    }

    fn checked_add_num(self, other: Self) -> (r: Option<Self>) {
        self.checked_add(other)
    }

    fn as_usize(self) -> (r: usize) {
        self as usize
    }

    fn as_isize(self) -> (r: isize) {
        if self as u64 <= isize::MAX as u64 {
            self as isize
        } else {
            0
        }
    }
}

impl MyNums for u64 {
    open spec fn num_value(&self) -> int {
        *self as int
    }

    open spec fn min_value() -> int {
        0
    }

    open spec fn max_value() -> int {
        u64::MAX as int
    }

    proof fn lemma_in_range(x: Self) {
    }

    fn zero() -> (r: Self) {
        0
    }

    fn add_num(self, other: Self) -> (r: Self) {
        self + other
    }

    fn checked_add_num(self, other: Self) -> (r: Option<Self>) {
        self.checked_add(other)
    }

    fn as_usize(self) -> (r: usize) {
        if self <= usize::MAX as u64 {
            self as usize
        } else {
            0
        }
    }

    fn as_isize(self) -> (r: isize) {
        if self <= isize::MAX as u64 {
            self as isize
        } else {
            0
        }
    }
}

impl MyNums for usize {
    open spec fn num_value(&self) -> int {
        *self as int
    }

    open spec fn min_value() -> int {
        0
    }

    open spec fn max_value() -> int {
        usize::MAX as int
    }

    proof fn lemma_in_range(x: Self) {
    }

    fn zero() -> (r: Self) {
        0
    }

    fn add_num(self, other: Self) -> (r: Self) {
        self + other
    }

    fn checked_add_num(self, other: Self) -> (r: Option<Self>) {
        self.checked_add(other)
    }

    fn as_usize(self) -> (r: usize) {
        self
    }

    fn as_isize(self) -> (r: isize) {
        if self <= isize::MAX as usize {
            self as isize
        } else {
            0
        }
    }
}

impl MyNums for i8 {
    open spec fn num_value(&self) -> int {
        *self as int
    }

    open spec fn min_value() -> int {
        i8::MIN as int
    }

    open spec fn max_value() -> int {
        i8::MAX as int
    }

    proof fn lemma_in_range(x: Self) {
    }

    fn zero() -> (r: Self) {
        0
    }

    fn add_num(self, other: Self) -> (r: Self) {
        self + other
    }

    fn checked_add_num(self, other: Self) -> (r: Option<Self>) {
        self.checked_add(other)
    }

    fn as_usize(self) -> (r: usize) {
        if self >= 0 {
            self as usize
        } else {
            0
        }
    }

    fn as_isize(self) -> (r: isize) {
        self as isize
    }
}

impl MyNums for i16 {
    open spec fn num_value(&self) -> int {
        *self as int
    }

    open spec fn min_value() -> int {
        i16::MIN as int
    }

    open spec fn max_value() -> int {
        i16::MAX as int
    }

    proof fn lemma_in_range(x: Self) {
    }

    fn zero() -> (r: Self) {
        0
    }

    fn add_num(self, other: Self) -> (r: Self) {
        self + other
    }

    fn checked_add_num(self, other: Self) -> (r: Option<Self>) {
        self.checked_add(other)
    }

    fn as_usize(self) -> (r: usize) {
        if self >= 0 {
            self as usize
        } else {
            0
        }
    }

    fn as_isize(self) -> (r: isize) {
        self as isize
    }
}

impl MyNums for i32 {
    open spec fn num_value(&self) -> int {
        *self as int
    }

    open spec fn min_value() -> int {
        i32::MIN as int
    }

    open spec fn max_value() -> int {
        i32::MAX as int
    }

    proof fn lemma_in_range(x: Self) {
    }

    fn zero() -> (r: Self) {
        0
    }

    fn add_num(self, other: Self) -> (r: Self) {
        self + other
    }

    fn checked_add_num(self, other: Self) -> (r: Option<Self>) {
        self.checked_add(other)
    }

    fn as_usize(self) -> (r: usize) {
        if self >= 0 {
            self as usize
        } else {
            0
        }
    }

    fn as_isize(self) -> (r: isize) {
        self as isize
    }
}

impl MyNums for i64 {
    open spec fn num_value(&self) -> int {
        *self as int
    }

    open spec fn min_value() -> int {
        i64::MIN as int
    }

    open spec fn max_value() -> int {
        i64::MAX as int
    }

    proof fn lemma_in_range(x: Self) {
    }

    fn zero() -> (r: Self) {
        0
    }

    fn add_num(self, other: Self) -> (r: Self) {
        self + other
    }

    fn checked_add_num(self, other: Self) -> (r: Option<Self>) {
        self.checked_add(other)
    }

    fn as_usize(self) -> (r: usize) {
        if self >= 0 && self as u64 <= usize::MAX as u64 {
            self as usize
        } else {
            0
        }
    }

    fn as_isize(self) -> (r: isize) {
        if isize::MIN as i64 <= self && self <= isize::MAX as i64 {
            self as isize
        } else {
            0
        }
    }
}

impl MyNums for isize {
    open spec fn num_value(&self) -> int {
        *self as int
    }

    open spec fn min_value() -> int {
        isize::MIN as int
    }

    open spec fn max_value() -> int {
        isize::MAX as int
    }

    proof fn lemma_in_range(x: Self) {
    }

    fn zero() -> (r: Self) {
        0
    }

    fn add_num(self, other: Self) -> (r: Self) {
        self + other
    }

    fn checked_add_num(self, other: Self) -> (r: Option<Self>) {
        self.checked_add(other)
    }

    fn as_usize(self) -> (r: usize) {
        if self >= 0 {
            self as usize
        } else {
            0
        }
    }

    fn as_isize(self) -> (r: isize) {
        self
    }
}

} // verus!
