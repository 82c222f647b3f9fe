//! Hand-written cell, reference-counting and borrow-tracking types.

pub mod th2a;
