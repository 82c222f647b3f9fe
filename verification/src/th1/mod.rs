//! Copy-on-write strings and the post-publishing state machines.

pub mod th1f;
pub mod th1g;
