//! Averaging numbers of any `MyNums` type, the work a thread does on a
//! slice that was leaked to give it a `'static` lifetime.

use vstd::prelude::*;

pub use crate::nums::MyNums;
use crate::nums::usize_or_zero;

verus! {

/// The sum of the values of `s`.
pub open spec fn sum_values<T: MyNums>(s: Seq<T>) -> int
    decreases s.len(),
{
    if s.len() == 0 {
        0
    } else {
        sum_values(s.drop_last()) + s.last().num_value()
    }
}

/// Whether every running sum of `s`, from the left, fits the type: adding
/// the numbers up one by one never overflows.
pub open spec fn sums_fit<T: MyNums>(s: Seq<T>) -> bool {
    forall|k: int|
        0 <= k <= s.len() ==> T::min_value() <= #[trigger] sum_values(s.take(k)) <= T::max_value()
}

/// The average of `numbers`, rounded down: their sum (added up in the type
/// `T`) read as a `usize` (0 if it is negative or does not fit), divided by
/// how many there are. The slice must not be empty, and the running sums
/// must not overflow `T`.
pub fn average_of<T: MyNums>(numbers: &[T]) -> (r: usize)
    requires
        numbers@.len() > 0,
        sums_fit(numbers@),
    ensures
        r == usize_or_zero(sum_values(numbers@)) / (numbers@.len() as int),
{
    let len = numbers.len();
    let mut sum = T::zero();
    let mut i: usize = 0;
    while i < len
        invariant
            len == numbers@.len(),
            i <= len,
            sums_fit(numbers@),
            sum.num_value() == sum_values(numbers@.take(i as int)),
        decreases len - i,
    {
        assert(numbers@.take(i + 1).drop_last() == numbers@.take(i as int));
        assert(numbers@.take(i + 1).last() == numbers@[i as int]);
        assert(T::min_value() <= sum_values(numbers@.take(i + 1)) <= T::max_value());
        sum = sum.add_num(numbers[i]);
        i = i + 1;
    }
    assert(numbers@.take(len as int) == numbers@);
    sum.as_usize() / len
}

} // verus!
