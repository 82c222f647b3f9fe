//! A `RefCell` that counts its borrows at run time.
//!
//! A borrow hands out a token (`Ref` for a shared borrow, `RefMut` for an
//! exclusive one) and records it in the cell's borrow state; dropping the
//! token through the cell takes the record back. Shared borrows may pile
//! up; an exclusive borrow needs the cell to be unborrowed.

use vstd::prelude::*;

use super::modcell::MyCell;

verus! {

/// The borrow state of a [`MyRefCell`].
#[derive(Debug, Copy, Clone, PartialEq, Eq, Structural)]
pub enum RefState {
    /// Not borrowed.
    Unshared,
    /// Borrowed shared; the count of the shared borrows.
    Shared(usize),
    /// Borrowed exclusively.
    Exclusive,
}

/// The borrow state after a shared borrow from state `s`, which must not be
/// `Exclusive`: the first borrow records 1, and each further one adds 1 to
/// the count (saturating at `usize::MAX`).
pub open spec fn state_after_borrow(s: RefState) -> RefState {
    match s {
        RefState::Unshared => RefState::Shared(1),
        RefState::Shared(x) => RefState::Shared(
            if x == usize::MAX {
                usize::MAX
            } else {
                (x + 1) as usize
            },
        ),
        RefState::Exclusive => RefState::Exclusive,
    }
}

/// The borrow state after dropping a shared borrow from state `s`, which
/// must be `Shared`: one borrow left means unborrowed, else the count
/// drops by one.
pub open spec fn state_after_ref_drop(s: RefState) -> RefState {
    match s {
        RefState::Shared(x) => if x == 1 {
            RefState::Unshared
        } else {
            RefState::Shared((x - 1) as usize)
        },
        _ => s,
    }
}

/// A cell whose value is borrowed through tokens, with the borrows counted.
#[derive(Debug)]
pub struct MyRefCell<T> {
    value: T,
    references: MyCell<RefState>,
}

/// The token of a shared borrow of a [`MyRefCell`].
#[derive(Debug)]
pub struct Ref {
    _private: (),
}

/// The token of an exclusive borrow of a [`MyRefCell`].
#[derive(Debug)]
pub struct RefMut {
    _private: (),
}

impl<T> MyRefCell<T> {
    /// The value held.
    pub closed spec fn value(&self) -> T {
        self.value
    }

    /// The borrow state.
    pub closed spec fn state(&self) -> RefState {
        self.references@
    }

    /// An unborrowed cell holding `val`.
    pub fn new(val: T) -> (r: Self)
        ensures
            r.value() == val,
            r.state() == RefState::Unshared,
    {
        MyRefCell { value: val, references: MyCell::new(RefState::Unshared) }
    }

    /// Borrows the value shared. The cell must not be borrowed exclusively.
    pub fn borrow(&mut self) -> (r: Ref)
        requires
            old(self).state() != RefState::Exclusive,
        ensures
            final(self).value() == old(self).value(),
            final(self).state() == state_after_borrow(old(self).state()),
    {
        match self.references.get() {
            RefState::Unshared => self.references = MyCell::new(RefState::Shared(1)),
            RefState::Shared(x) => self.references = MyCell::new(RefState::Shared(x.saturating_add(1))),
            RefState::Exclusive => {},
        }
        Ref { _private: () }
    }

    /// Borrows the value exclusively. The cell must not be borrowed at all.
    pub fn borrow_mut(&mut self) -> (r: RefMut)
        requires
            old(self).state() == RefState::Unshared,
        ensures
            final(self).value() == old(self).value(),
            final(self).state() == RefState::Exclusive,
    {
        self.references = MyCell::new(RefState::Exclusive);
        RefMut { _private: () }
    }

    /// Whether a shared borrow would be granted: the cell is not borrowed
    /// exclusively.
    pub fn try_borrow(&self) -> (r: bool)
        ensures
            r == (self.state() != RefState::Exclusive),
    {
        self.references.get() != RefState::Exclusive
    }

    /// Whether an exclusive borrow would be granted: the cell is not
    /// borrowed at all.
    pub fn try_borrow_mut(&self) -> (r: bool)
        ensures
            r == (self.state() == RefState::Unshared),
    {
        self.references.get() == RefState::Unshared
    }
}

impl Ref {
    /// Ends this shared borrow of `refcell`, which must be borrowed shared
    /// (a shared state that the cell's own steps reach counts at least one
    /// borrow).
    pub fn release<T>(self, refcell: &mut MyRefCell<T>)
        requires
            old(refcell).state() matches RefState::Shared(n) && n >= 1,
        ensures
            final(refcell).value() == old(refcell).value(),
            final(refcell).state() == state_after_ref_drop(old(refcell).state()),
    {
        match refcell.references.get() {
            RefState::Shared(x) => {
                if x == 1 {
                    refcell.references = MyCell::new(RefState::Unshared);
                } else {
                    refcell.references = MyCell::new(RefState::Shared(x - 1));
                }
            },
            _ => {},
        }
    }

    /// The value this shared borrow reads.
    pub fn get<'a, T>(&self, refcell: &'a MyRefCell<T>) -> (r: &'a T)
        requires
            refcell.state() is Shared,
        ensures
            *r == refcell.value(),
    {
        &refcell.value
    }
}

impl RefMut {
    /// Ends this exclusive borrow of `refcell`, which must be borrowed
    /// exclusively; the cell is unborrowed again.
    pub fn release<T>(self, refcell: &mut MyRefCell<T>)
        requires
            old(refcell).state() == RefState::Exclusive,
        ensures
            final(refcell).value() == old(refcell).value(),
            final(refcell).state() == RefState::Unshared,
    {
        refcell.references = MyCell::new(RefState::Unshared);
    }

    /// The value this exclusive borrow reads.
    pub fn get<'a, T>(&self, refcell: &'a MyRefCell<T>) -> (r: &'a T)
        requires
            refcell.state() == RefState::Exclusive,
        ensures
            *r == refcell.value(),
    {
        &refcell.value
    }

    /// The value this exclusive borrow writes.
    pub fn get_mut<'a, T>(&mut self, refcell: &'a mut MyRefCell<T>) -> (r: &'a mut T)
        requires
            old(refcell).state() == RefState::Exclusive,
        ensures
            *r == old(refcell).value(),
            final(refcell).value() == *final(r),
            final(refcell).state() == RefState::Exclusive,
    {
        &mut refcell.value
    }
}

/// A shared borrow of an unborrowed cell, once dropped, leaves the cell
/// unborrowed again.
pub proof fn lemma_borrow_then_drop_restores()
    ensures
        state_after_ref_drop(state_after_borrow(RefState::Unshared)) == RefState::Unshared,
{
}

/// While shared borrows are out, the cell never counts fewer than one of
/// them: a borrow from any non-exclusive state gives a shared state with a
/// positive count, and a drop from a shared count above one keeps it shared.
pub proof fn lemma_shared_count_positive(s: RefState)
    requires
        s != RefState::Exclusive,
    ensures
        state_after_borrow(s) matches RefState::Shared(n) && n >= 1,
        s matches RefState::Shared(n) && n > 1 ==> state_after_ref_drop(s) is Shared,
{
}

/// A shared borrow taken while other shared borrows are out, once dropped,
/// leaves the count where it was.
pub proof fn lemma_nested_borrow_then_drop(x: usize)
    requires
        1 <= x < usize::MAX,
    ensures
        state_after_ref_drop(state_after_borrow(RefState::Shared(x))) == RefState::Shared(x),
{
}

/// The number of shared borrows alive after the borrows and releases
/// `steps` (`true` a borrow, `false` a release) on an unborrowed cell.
pub open spec fn live_borrows(steps: Seq<bool>) -> int
    decreases steps.len(),
{
    if steps.len() == 0 {
        0
    } else {
        live_borrows(steps.drop_last()) + if steps.last() {
            1int
        } else {
            -1int
        }
    }
}

/// The borrow state after the shared borrows and releases `steps` (`true` a
/// borrow, `false` a release) on an unborrowed cell.
pub open spec fn run_borrows(steps: Seq<bool>) -> RefState
    decreases steps.len(),
{
    if steps.len() == 0 {
        RefState::Unshared
    } else if steps.last() {
        state_after_borrow(run_borrows(steps.drop_last()))
    } else {
        state_after_ref_drop(run_borrows(steps.drop_last()))
    }
}

/// The cell counts exactly the shared borrows that are alive: through any
/// shared borrows and releases (each release of a borrow that is alive, and
/// fewer than `usize::MAX` borrows at once), the state is `Shared` of the
/// number alive, and `Unshared` (so an exclusive borrow is granted again)
/// exactly when none is.
pub proof fn lemma_state_counts_live_borrows(steps: Seq<bool>)
    requires
        forall|k: int|
            0 <= k < steps.len() ==> 0 <= #[trigger] live_borrows(steps.take(k + 1))
                < usize::MAX,
    ensures
        live_borrows(steps) == 0 ==> run_borrows(steps) == RefState::Unshared,
        live_borrows(steps) > 0 ==> run_borrows(steps) == RefState::Shared(
            live_borrows(steps) as usize,
        ),
        0 <= live_borrows(steps),
    decreases steps.len(),
{
    if steps.len() > 0 {
        let p = steps.drop_last();
        assert forall|k: int| 0 <= k < p.len() implies 0 <= #[trigger] live_borrows(p.take(k + 1))
            < usize::MAX by {
            assert(p.take(k + 1) == steps.take(k + 1));
        }
        lemma_state_counts_live_borrows(p);
        assert(steps.take(steps.len() as int) == steps);
        assert(0 <= live_borrows(steps.take((steps.len() - 1) + 1)) < usize::MAX);
    }
}

} // verus!
