use vstd::prelude::*;

verus! {

/// The record of a completed mount. It holds no live handle, so it can be
/// stored by the caller and handed back to `unmount` later.
#[derive(Clone, Debug)]
pub struct MountPoint {
    /// The filesystem type name of the mount.
    pub kind: String,
    /// Where the composed filesystem is visible.
    pub mount_path: String,
    /// The driver-private directory backing the mount.
    pub work_dir: String,
}

impl MountPoint {
    /// A copy with the same field values.
    pub fn duplicate(&self) -> (r: MountPoint)
        ensures
            r.kind@ == self.kind@,
            r.mount_path@ == self.mount_path@,
            r.work_dir@ == self.work_dir@,
    {
        MountPoint {
            kind: self.kind.clone(),
            mount_path: self.mount_path.clone(),
            work_dir: self.work_dir.clone(),
        }
    }
}

/// One layer of an image as the caller found it on disk.
#[derive(Clone, Debug)]
pub struct Layer {
    /// The unpacked layer directory.
    pub path: String,
    /// Whether the path exists and is a directory.
    pub is_dir: bool,
}

} // verus!
