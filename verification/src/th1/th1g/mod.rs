//! Three ways to write one publishing workflow for a post: a state held as
//! a value that each step replaces (`state1_oop_box_dyn`), the same state
//! where each step first checks which state it is in (`state1_oop_dyn_any`),
//! and one type per state, where a step is a conversion between types
//! (`state1_non_oop`).

pub mod state1_non_oop;
pub mod state1_oop_box_dyn;
pub mod state1_oop_dyn_any;
pub mod state1_oop_non_oop;
