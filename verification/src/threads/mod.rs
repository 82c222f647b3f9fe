//! The computations that the thread demonstrations hand to their threads:
//! growing a vector, averaging numbers, counting under a lock, and a
//! producer and a consumer sharing a queue.

pub mod lib_th_a;
pub mod lib_th_b;
pub mod lib_th_c;
