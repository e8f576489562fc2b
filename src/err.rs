use vstd::prelude::*;

verus! {

/// Errors reported by the host-controller core.
#[derive(Debug, Clone, Copy, PartialEq, Eq, Structural)]
pub enum USBError {
    /// An unclassified failure.
    Unknown,
    /// An operation was attempted before the controller was initialised.
    NotInitialized,
    /// A DMA allocation failed.
    NoMemory,
    /// A slot id outside `1..=max_slots` was requested.
    SlotLimitReached,
    /// A status poll exceeded its deadline.
    ControllerNotReady,
    /// The controller reported a fatal condition.
    ControllerFailed,
    /// A command completed with the given non-success completion code.
    CommandFailed(u8),
}

} // verus!
