//! Common utilities.

pub mod slab;
