//! The three post types under one roof.

#![allow(non_camel_case_types)]

pub use super::state1_non_oop::Post as Post_Non;
pub use super::state1_oop_box_dyn::Post as Post_OOP;
pub use super::state1_oop_dyn_any::Post as Post_Any;
