//! Files.

pub mod opener;
