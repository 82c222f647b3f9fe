//! The number family used to average a leaked slice in a thread.

pub use crate::nums::MyNums;
pub use crate::threads::lib_th_b::average_of;
