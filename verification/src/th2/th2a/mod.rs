//! Our own `Cell`, `RefCell` and `Rc`, written to see what the standard
//! ones keep track of.
//!
//! The standard types change their contents through a shared reference.
//! Here every change goes through `&mut`, so each step states exactly how
//! the tracked state moves: the value of a cell, the borrow state of a
//! `RefCell`, the strong count of an `Rc`.

pub mod modcell;
pub mod modrc;
pub mod modrefcell;

pub use self::modcell::MyCell;
pub use self::modrc::MyRc;
pub use self::modrefcell::MyRefCell;
