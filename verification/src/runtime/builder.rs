//! The configuration of a runtime.
//!
//! The builder holds the depth of the submission queue. The settings of the
//! ring beyond that, and the building itself, are with the embedding program.

use std::marker::PhantomData;
use vstd::prelude::*;

verus! {

/// The least depth of the submission queue.
pub const MIN_ENTRIES: u32 = 256;

/// The depth of the submission queue where none is asked for.
pub const DEFAULT_ENTRIES: u32 = 1024;

/// Builds a runtime with driver `D`.
pub struct RuntimeBuilder<D> {
    /// The depth of the submission queue, if one was asked for.
    pub entries: Option<u32>,
    /// Marks the driver.
    pub _mark: PhantomData<D>,
}

impl<D> Default for RuntimeBuilder<D> {
    fn default() -> (builder: Self)
        ensures
            builder.entries is None,
    {
        RuntimeBuilder::new()
    }
}

impl<D> RuntimeBuilder<D> {
    /// A builder with the default settings.
    #[must_use]
    pub fn new() -> (builder: Self)
        ensures
            builder.entries is None,
    {
        RuntimeBuilder { entries: None, _mark: PhantomData }
    }

    /// The depth that the submission queue is built with.
    pub open spec fn depth(&self) -> u32 {
        match self.entries {
            Some(entries) => entries,
            None => DEFAULT_ENTRIES,
        }
    }

    /// Sets the depth of the submission queue. A depth below 256 is raised to
    /// 256.
    #[must_use]
    pub fn with_entries(self, entries: u32) -> (builder: Self)
        ensures
            builder.entries == Some(
                if entries < MIN_ENTRIES {
                    MIN_ENTRIES
                } else {
                    entries
                },
            ),
    {
        let mut builder = self;
        if entries < MIN_ENTRIES {
            builder.entries = Some(MIN_ENTRIES);
            return builder;
        }
        builder.entries = Some(entries);
        builder
    }

    /// The depth that the submission queue is built with: the depth that was
    /// asked for, or 1024.
    pub fn entries(&self) -> (entries: u32)
        ensures
            entries == self.depth(),
    {
        match self.entries {
            Some(entries) => entries,
            None => DEFAULT_ENTRIES,
        }
    }
}

} // verus!
