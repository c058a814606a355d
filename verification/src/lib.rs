//! Process-wide logging bootstrap.
//!
//! One component, one entry point: [`init`] yields the plan under which the
//! embedding binary opens (creating and truncating) the fixed log file, wraps
//! it in a text formatter and an asynchronous buffering stage, publishes the
//! resulting handle as the process's one global logger, and bridges the
//! ad-hoc leveled call surface into it. The decisions of that bootstrap, and
//! the record flow through the published chain, are what this library states
//! and proves; the outward steps themselves (the file system, the global
//! logger slot) stay with the embedding binary.

use vstd::prelude::*;

pub mod chain;
pub mod plan;
pub mod record;

verus! {

/// Build the bootstrap plan of the process-wide logger: open the fixed log
/// file for writing, creating it if absent and discarding prior content, and
/// treat a failed open, or a logger already installed when the bridge goes
/// in, as fatal.
pub fn init() -> (p: plan::BootstrapPlan)
    ensures
        p.path@ == plan::spec_log_file_name(),
        p.mode.create,
        p.mode.write,
        p.mode.truncate,
        !p.mode.append,
        p.abort_on_open_failure,
        p.abort_on_bridge_conflict,
{
    plan::BootstrapPlan {
        path: plan::log_file_name(),
        mode: plan::OpenMode { create: true, write: true, truncate: true, append: false },
        abort_on_open_failure: true,
        abort_on_bridge_conflict: true,
    }
}

/// The two states of the bootstrap: uninitialized until the one global
/// handle is published, initialized for the rest of the process's life.
/// There is no transition back: re-initialization is unsupported.
pub struct BootstrapState {
    initialized: bool,
}

impl BootstrapState {
    /// Whether the one global handle has been published.
    pub closed spec fn is_initialized(&self) -> bool {
        self.initialized
    }

    /// The state a process starts in: nothing published yet.
    pub fn new() -> (s: Self)
        ensures
            !s.is_initialized(),
    {
        BootstrapState { initialized: false }
    }

    /// Record that the handle was published and the bridge installed. The
    /// embedding binary must see to it that this fires at most once, before
    /// any thread starts logging: a second firing is ruled out here.
    pub fn mark_initialized(&mut self)
        requires
            !old(self).is_initialized(),
        ensures
            final(self).is_initialized(),
    {
        self.initialized = true;
    }
}

} // verus!
