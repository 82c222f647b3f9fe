//! A reference-counted pointer: one shared allocation and the handles that
//! point at it.
//!
//! The allocation holds the value and the strong count. [`MyRc::new`]
//! makes the allocation with its first handle; cloning a handle hands out
//! another one and adds one to the count (wrapping at `usize::MAX`);
//! dropping a handle takes one away, and dropping the last one frees the
//! allocation. Every handle reads the one value and the one count.

use vstd::prelude::*;

use super::modcell::MyCell;

verus! {

/// The strong count after a clone: one more, wrapping to 0 past
/// `usize::MAX`.
pub open spec fn count_after_clone(c: usize) -> usize {
    if c == usize::MAX {
        0
    } else {
        (c + 1) as usize
    }
}

/// The strong count after a drop: one less, or `None` (the allocation is
/// freed) where the count was at most one.
pub open spec fn count_after_drop(c: usize) -> Option<usize> {
    if c > 1 {
        Some((c - 1) as usize)
    } else {
        None
    }
}

/// The allocation shared by the handles of a reference-counted pointer:
/// the value and the count of the handles that point at it.
pub struct MyRc<T> {
    value: T,
    strong_count: MyCell<usize>,
}

/// One handle to a [`MyRc`] allocation. Handles are made only by
/// [`MyRc::new`] and [`MyRc::clone_handle`], and given back by
/// [`MyRc::drop_handle`].
#[derive(Debug)]
pub struct RcHandle {
    _private: (),
}

impl<T> MyRc<T> {
    /// The value held.
    pub closed spec fn value(&self) -> T {
        self.value
    }

    /// The strong count.
    pub closed spec fn strong(&self) -> usize {
        self.strong_count@
    }

    /// A new allocation holding `val`, with its one handle.
    pub fn new(val: T) -> (r: (Self, RcHandle))
        ensures
            r.0.value() == val,
            r.0.strong() == 1,
    {
        (MyRc { value: val, strong_count: MyCell::new(1) }, RcHandle { _private: () })
    }

    /// The strong count: how many handles point at the allocation.
    pub fn get_strong(&self) -> (r: usize)
        ensures
            r == self.strong(),
    {
        self.strong_count.get()
    }

    /// Clones `handle`: hands out one more handle to the same allocation and
    /// counts it. Both handles read the same value and the same count.
    pub fn clone_handle(&mut self, handle: &RcHandle) -> (r: RcHandle)
        ensures
            final(self).value() == old(self).value(),
            final(self).strong() == count_after_clone(old(self).strong()),
    {
        let val: usize = self.strong_count.get();
        self.strong_count.set(val.wrapping_add(1));
        RcHandle { _private: () }
    }

    /// The value every handle reads.
    pub fn get(&self) -> (r: &T)
        ensures
            *r == self.value(),
    {
        &self.value
    }

    /// Drops `handle`: gives back the allocation with the count lowered,
    /// or `None` when that was the last handle and the allocation is freed.
    pub fn drop_handle(self, handle: RcHandle) -> (r: Option<Self>)
        ensures
            count_after_drop(self.strong()) is None ==> r is None,
            count_after_drop(self.strong()) matches Some(c) ==> r matches Some(rc) && rc.value()
                == self.value() && rc.strong() == c,
    {
        let x: usize = self.strong_count.get();
        if x > 1 {
            let mut this = self;
            this.strong_count.set(x - 1);
            Some(this)
        } else {
            None
        }
    }
}

/// A step taken on the handles of one allocation.
#[derive(Debug, Clone, Copy, PartialEq, Eq, Structural)]
pub enum RcOp {
    /// A handle is cloned.
    Clone,
    /// A handle is dropped.
    Drop,
}

/// The strong count after the steps `ops`, starting from count `c`; `None`
/// once a drop has freed the allocation.
pub open spec fn run_ops(c: usize, ops: Seq<RcOp>) -> Option<usize>
    decreases ops.len(),
{
    if ops.len() == 0 {
        Some(c)
    } else {
        match run_ops(c, ops.drop_last()) {
            None => None,
            Some(k) => match ops.last() {
                RcOp::Clone => Some(count_after_clone(k)),
                RcOp::Drop => count_after_drop(k),
            },
        }
    }
}

/// How many handles are alive after the steps `ops` on a new allocation:
/// the first one, plus one per clone, less one per drop.
pub open spec fn live_handles(ops: Seq<RcOp>) -> int
    decreases ops.len(),
{
    if ops.len() == 0 {
        1
    } else {
        live_handles(ops.drop_last()) + match ops.last() {
            RcOp::Clone => 1int,
            RcOp::Drop => -1int,
        }
    }
}

/// The strong count of a new allocation is the number of live handles,
/// through any clones and drops made while a handle is alive (and the
/// count below `usize::MAX`, where a clone wraps): the allocation is freed
/// exactly when the last live handle is dropped.
pub proof fn lemma_count_is_live_handles(ops: Seq<RcOp>)
    requires
        forall|k: int| 0 <= k < ops.len() ==> 1 <= #[trigger] live_handles(ops.take(k)) < usize::MAX,
    ensures
        live_handles(ops) >= 0,
        live_handles(ops) >= 1 ==> run_ops(1, ops) == Some(live_handles(ops) as usize),
        live_handles(ops) == 0 ==> run_ops(1, ops) is None,
    decreases ops.len(),
{
    if ops.len() > 0 {
        let p = ops.drop_last();
        assert forall|k: int| 0 <= k < p.len() implies 1 <= #[trigger] live_handles(p.take(k))
            < usize::MAX by {
            assert(p.take(k) == ops.take(k));
        }
        lemma_count_is_live_handles(p);
        assert(ops.take(ops.len() - 1) == p);
        assert(1 <= live_handles(ops.take(ops.len() - 1)) < usize::MAX);
    }
}

/// A clone followed by a drop leaves the strong count where it was, for
/// every count that a clone does not wrap.
pub proof fn lemma_clone_then_drop_restores(c: usize)
    requires
        1 <= c < usize::MAX,
    ensures
        count_after_drop(count_after_clone(c)) == Some(c),
{
}

/// The allocation is freed exactly when the last handle is dropped: a
/// fresh allocation is freed by its one drop, and a count above one is
/// never freed by a drop.
pub proof fn lemma_freed_only_by_last_drop(c: usize)
    ensures
        count_after_drop(1) is None,
        c > 1 ==> count_after_drop(c) is Some,
{
}

} // verus!
