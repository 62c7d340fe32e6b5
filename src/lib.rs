//! Composition of read-only image layers into a mountable root filesystem.
//!
//! The library holds the decisions of the snapshot drivers: which backend is
//! used, how a layer list is validated and stacked, which directories a mount
//! owns, and which error each failure becomes. The operating-system calls
//! themselves are carried out by the caller, who reports their outcome back.

pub mod error;
pub mod snapshot_type;
pub mod mount_point;
pub mod stacking;
pub mod driver;

pub use stacking::lowerdir_option;
pub use driver::{create, create_with, Driver, MountRequest, Snapshotter, UnmountRequest};

pub use error::SnapshotError;
pub use snapshot_type::{Backends, SnapshotType};
pub use mount_point::{Layer, MountPoint};


