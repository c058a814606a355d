//! Log records as the published chain carries them.

use vstd::prelude::*;

verus! {

/// Severity of a log record, most severe first, as the leveled call surface
/// ranks them.
#[derive(Clone, Copy, PartialEq, Eq, Structural, Debug)]
pub enum Level {
    Critical,
    Error,
    Warning,
    Info,
    Debug,
    Trace,
}

/// One log record: a severity and the message text. The rendered line is the
/// text formatter's affair; the chain is tracked record by record.
pub struct Record {
    pub level: Level,
    pub msg: String,
}

} // verus!
