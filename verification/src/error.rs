//! What an operation on the state can be refused for.

use vstd::prelude::*;

verus! {

/// The reason an operation was refused. A refused operation changes nothing.
#[derive(Clone, Copy, Debug, PartialEq, Eq, Structural)]
pub enum BeamError {
    /// A parameter could cause invalid behaviour.
    InvalidParameter,
    /// The beam holds more than its allocation allows, so it may not mint.
    MintWindowExceeded,
    /// The beam is asked to give up more than it is responsible for.
    BurnWindowExceeded,
    /// The state has reached the number of beams it can hold.
    WouldExceedBeamCapacity,
    /// The beam is registered already.
    DuplicateBeamEntry,
    /// No slot is free for a new beam.
    NoSpaceInAllocations,
    /// The key names no registered beam.
    UnidentifiedBeam,
    /// The calling program does not own the beam.
    UnidentifiedCallingProgram,
    /// A beam with an allocation other than zero cannot be removed.
    NonZeroAllocation,
    /// The allocations do not add up to 100.
    InvalidAllocationSum,
    /// The number of beam reports differs from the number of beams.
    IncorrectBeamEpochReportCount,
    /// A beam report is of another epoch.
    IncorrectBeamEpochReportEpoch,
    /// A beam report is not that of the beam in its place.
    IncorrectBeamEpochReport,
    /// The epoch report is of this epoch or a later one already.
    EpochReportAlreadyUpdated,
    /// The beam has not reported for the current epoch.
    EpochReportNotUpToDate,
    /// An amount left the 64 bits it is kept in.
    Overflow,
}

} // verus!
