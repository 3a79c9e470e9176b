//! Error taxonomy of the journaling layer.
//!
//! A journaling failure (the append itself could not be recorded) is fatal to
//! the originating instance; a replay failure (an entry's effect could not be
//! reproduced) is fatal to the whole restore.  Neither is ever downgraded or
//! retried: both mean the journal no longer faithfully represents the guest's
//! real effects.

use vstd::prelude::*;

verus! {

/// POSIX-style error number returned by the in-instance call implementations.
#[derive(Clone, Copy, Debug, PartialEq, Eq, Structural)]
pub enum Errno {
    /// No error occurred.
    Success,
    /// Bad file descriptor: the descriptor is not open in this instance.
    Badf,
    /// The target descriptor identifier is already occupied.
    Exist,
    /// A fault that terminates the guest instance.
    Fault,
    /// The descriptor table is full: no identifier can be allocated.
    Mfile,
    /// The path does not exist and the call did not ask to create it.
    Noent,
}

/// Fatal, instance-terminating error.  A gap in the journal silently breaks
/// every future restore, so a failed journal append ends the guest.
#[derive(Clone, Copy, Debug, PartialEq, Eq, Structural)]
pub enum WasiError {
    /// The guest instance exits with the given error number.
    Exit(Errno),
}

/// The journal append itself could not be durably recorded.
#[derive(Clone, Copy, Debug, PartialEq, Eq, Structural)]
pub enum JournalingError {
    /// The journal's backing storage is unavailable.
    StorageUnavailable,
}

/// One entry's effect could not be reproduced during replay.  Carries the
/// call name (by variant), the descriptor identifiers and the path involved,
/// so the caller can log a precise diagnostic.
#[derive(Debug)]
pub enum ReplayError {
    /// Reopening the recorded path failed outright.
    OpenFailed { fd: u32, path: String, errno: Errno },
    /// The descriptor allocated during replay could not be renumbered to the
    /// recorded identifier; reported with both identifiers for diagnosis.
    RenumberFailed { from: u32, to: u32, errno: Errno },
    /// Re-duplicating the recorded source descriptor failed.
    DuplicateFailed { original_fd: u32, copied_fd: u32, errno: Errno },
    /// Closing the recorded descriptor failed.
    CloseFailed { fd: u32, errno: Errno },
}

/// A failed restore: the index of the journal entry that could not be
/// applied, and why.  Entries are causally dependent, so nothing after the
/// failing entry has been applied.
#[derive(Debug)]
pub struct RestoreError {
    /// Position of the failing entry in the journal being replayed.
    pub index: usize,
    /// What went wrong when applying that entry.
    pub error: ReplayError,
}

} // verus!
