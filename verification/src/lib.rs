//! Pointers, cells, self-referencing values, state machines and the
//! computations that the thread and async demonstrations hand out,
//! each stated with a contract and proved.

pub mod nums;
pub mod pointers;
pub mod th1;
pub mod th2;
pub mod th3;
pub mod threads;
pub mod threads1;

pub use nums::MyNums;
pub use pointers::{MySelfReference, MySelfReferencePinned};
