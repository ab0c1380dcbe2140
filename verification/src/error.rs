//! Errors reported to the caller.

use crate::sdt::Signature;
use vstd::prelude::*;

verus! {

/// What is wrong with an interrupt-controller table, or with the wakeup
/// handshake that it describes.
#[derive(Clone, Copy, Debug, PartialEq, Eq, Structural)]
pub enum MadtError {
    /// The table declares no multiprocessor wakeup mailbox.
    NoWakeupMailbox,
    /// The target processor did not acknowledge the wakeup command within
    /// the allowed number of polling loops.
    WakeupApsTimeout,
}

/// Why a request could not be answered.
#[derive(Clone, Copy, Debug, PartialEq, Eq, Structural)]
pub enum AcpiError {
    /// A table that the request cannot do without is not in the store.
    TableNotFound(Signature),
    /// A generic address names an address space or access size that is not defined.
    InvalidGenericAddress,
    /// The interrupt-controller table, or the handshake that goes by it, is at fault.
    InvalidMadt(MadtError),
}

} // verus!
