//! The runtime: the run queue and the loop that alternates between running
//! tasks and waiting for I/O.

pub mod blocking;
pub mod builder;
pub mod runtime;
pub mod scheduler;
