//! Task bookkeeping: the packed, reference-counted state word of a task and
//! what it guarantees.

pub mod protocol;
pub mod state;
