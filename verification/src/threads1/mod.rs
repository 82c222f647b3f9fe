//! A second set of thread demonstrations: numbers shared with
//! threads, and two small self-referencing types.

pub mod lib_th1b;
pub mod lib_th1c;
