//! The operations on files.

pub mod close;
