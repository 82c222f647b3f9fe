//! Values that point into themselves.
//!
//! A self-referencing value holds a number and a pointer that, once set,
//! points at that very number: reading through the pointer reads the
//! number, and a write to the number is seen through the pointer.

pub mod lib_ptr_a;
pub mod lib_ptr_a2;

pub use lib_ptr_a::{
    danger_pointer_val_inc, unsafe_raw_vector_element_mutability, MySelfReference,
    MySelfReferencePinned, ValPtr,
};
pub use lib_ptr_a2::{MySelfRefState, MySelfRefStatePin};

