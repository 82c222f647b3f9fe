//! What the async demonstrations compute, and dispatch through a
//! hand-made table of a trait's methods.

pub mod th3b;
pub mod th3d;
