//! The bootstrap's fixed decisions: which file the logger writes, under which
//! open flags, and what happens when a step on the way fails.

use vstd::prelude::*;

verus! {

/// Name of the one log file, as a sequence of characters.
pub open spec fn spec_log_file_name() -> Seq<char> {
    "fastype.log"@
}

/// Name of the one log file, relative to the working directory.
pub fn log_file_name() -> (s: &'static str)
    ensures
        s@ == spec_log_file_name(),
{
    "fastype.log"
}

/// The flag set under which the log file is opened.
#[derive(Clone, Copy, PartialEq, Eq, Structural, Debug)]
pub struct OpenMode {
    /// create the file if it does not exist yet
    pub create: bool,
    /// open it for writing
    pub write: bool,
    /// discard whatever the file held
    pub truncate: bool,
    /// start writing after the existing content instead of at the beginning
    pub append: bool,
}

/// What the log file holds right after an open under `mode` succeeds, where
/// `prior` is what it held before (empty if it did not exist yet).
pub open spec fn contents_after_open(mode: OpenMode, prior: Seq<u8>) -> Seq<u8> {
    if mode.truncate {
        Seq::empty()
    } else {
        prior
    }
}

/// Whatever the log file held before the bootstrap ran, an open whose mode
/// truncates leaves it empty: records of earlier runs are discarded.
pub proof fn lemma_truncating_open_discards_prior(mode: OpenMode, prior: Seq<u8>)
    requires
        mode.truncate,
    ensures
        contents_after_open(mode, prior) == Seq::<u8>::empty(),
{
}

/// Everything the embedding binary must carry out to bring the global logger
/// up. The plan fixes each decision of the bootstrap; the binary only
/// performs the outward steps (open the file, publish the handle, install
/// the bridge) in this order and under these policies.
pub struct BootstrapPlan {
    /// name of the one log file, relative to the working directory
    pub path: &'static str,
    /// how that file is opened
    pub mode: OpenMode,
    /// a failed open is fatal: the process aborts rather than run unlogged
    pub abort_on_open_failure: bool,
    /// finding a logger already installed while bridging is fatal too
    pub abort_on_bridge_conflict: bool,
}

/// What the step that opens the log file reported back.
#[derive(Clone, Copy, PartialEq, Eq, Structural, Debug)]
pub enum OpenOutcome {
    Opened,
    Failed,
}

/// The bootstrap's decision after a step reported back.
#[derive(Clone, Copy, PartialEq, Eq, Structural, Debug)]
pub enum NextStep {
    Proceed,
    Abort,
}

/// Decide how the bootstrap goes on once the opening step reported: only a
/// successful open lets it proceed; a failure ends the process.
pub fn after_open(o: OpenOutcome) -> (s: NextStep)
    ensures
        (s is Proceed) <==> (o is Opened),
{
    match o {
        OpenOutcome::Opened => NextStep::Proceed,
        OpenOutcome::Failed => NextStep::Abort,
    }
}

/// Decide how the bootstrap goes on once the bridge was to be installed:
/// a logger already in place is a conflict and ends the process.
pub fn after_bridge_install(already_installed: bool) -> (s: NextStep)
    ensures
        (s is Proceed) <==> !already_installed,
{
    if already_installed {
        NextStep::Abort
    } else {
        NextStep::Proceed
    }
}

} // verus!
