//! Choices that shape the command line of the queue processor.

use vstd::prelude::*;

verus! {

/// Which host lists the queue processor is started with.
#[derive(Clone, Copy, PartialEq, Eq, Hash, Debug, Structural)]
pub enum FilterMode {
    /// The host list, its exclusions, and a list that the processor fills
    /// itself.
    AutoHostFile,
    /// The host list and its exclusions.
    HostFile,
    /// No host list.
    Disabled,
}

/// The kind of system, which decides where the host lists are kept.
#[derive(Clone, Copy, PartialEq, Eq, Hash, Debug, Structural)]
pub enum Platform {
    Android,
    Other,
}

} // verus!
