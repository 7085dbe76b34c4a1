use vstd::prelude::*;

verus! {

/// A failure reported by the bus transport for one transaction.
#[derive(Clone, Copy, Debug, PartialEq, Eq, Structural)]
pub enum BusFault {
    /// The controller was still busy with an earlier transfer.
    Busy,
    /// The transfer did not complete in time.
    Timeout,
    /// The transfer completed but not in the shape that was asked for.
    ProtocolFault,
}

/// Why a driver operation failed.
#[derive(Clone, Copy, Debug, PartialEq, Eq, Structural)]
pub enum Error {
    /// The transport failed; the fault is passed on unchanged.
    Bus(BusFault),
    /// The chip answered the identity read with an unexpected value.
    IdentityMismatch,
    /// The quad-enable bit did not stick within the bounded number of writes.
    QuadModeTimeout,
    /// The operation is not allowed in the driver's current state.
    WrongState,
    /// A random-access buffer is larger than the controller's FIFO.
    BufferTooLarge,
}

} // verus!
