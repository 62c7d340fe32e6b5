use vstd::prelude::*;

verus! {

/// The ways a snapshot operation can fail.
#[derive(Clone, Copy, Debug, PartialEq, Eq, Structural)]
pub enum SnapshotError {
    /// The layer list is empty, or one of its paths is missing or not a directory.
    InvalidLayer,
    /// The mount path is already mounted.
    MountTargetBusy,
    /// The operating system refused the mount itself.
    MountOperationFailed,
    /// The unmount target is not mounted.
    MountNotFound,
    /// The mount was detached but its work directory could not be removed.
    CleanupFailed,
    /// The requested backend is unknown or not built into this library.
    UnsupportedSnapshotType,
}

} // verus!
