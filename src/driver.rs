use vstd::prelude::*;
use vstd::string::*;

use crate::error::SnapshotError;
use crate::mount_point::{Layer, MountPoint};
use crate::snapshot_type::{Backends, SnapshotType};
use crate::stacking::{lowerdir_of, lowerdir_option};
use crate::snapshot_type::str_equal;

verus! {

/// The digit character for `d < 10`.
pub open spec fn digit_char(d: nat) -> char {
    if d == 0 { '0' } else if d == 1 { '1' } else if d == 2 { '2' } else if d == 3 { '3' }
    else if d == 4 { '4' } else if d == 5 { '5' } else if d == 6 { '6' } else if d == 7 { '7' }
    else if d == 8 { '8' } else { '9' }
}

/// The decimal digits of `n`, without leading zeros.
pub open spec fn decimal(n: nat) -> Seq<char>
    decreases n,
{
    if n < 10 {
        seq![digit_char(n)]
    } else {
        decimal(n / 10).push(digit_char(n % 10))
    }
}

/// The work directory of the mount numbered `id` under `root`.
pub open spec fn work_path(root: Seq<char>, id: nat) -> Seq<char> {
    root + "/"@ + decimal(id)
}

/// The writable upper directory inside a work directory.
pub open spec fn upper_of(work: Seq<char>) -> Seq<char> {
    work + "/upper"@
}

/// The scratch directory of the union mount inside a work directory.
pub open spec fn scratch_of(work: Seq<char>) -> Seq<char> {
    work + "/work"@
}

/// Whether `d` is `root` or lies below it.
pub open spec fn under(d: Seq<char>, root: Seq<char>) -> bool {
    d == root || (root + "/"@).is_prefix_of(d)
}

/// The filesystem type name that a backend reports.
pub open spec fn fs_type_of(kind: SnapshotType) -> Seq<char> {
    match kind {
        SnapshotType::OcclumUnionfs => "unionfs"@,
        _ => "overlay"@,
    }
}

/// The mount options for the given layer paths and work directory.
pub open spec fn options_of(paths: Seq<Seq<char>>, work: Seq<char>) -> Seq<char> {
    "lowerdir="@ + lowerdir_of(paths) + ",upperdir="@ + upper_of(work) + ",workdir="@
        + scratch_of(work)
}

/// The paths of a layer list.
pub open spec fn layer_paths(layers: Seq<Layer>) -> Seq<Seq<char>> {
    layers.map_values(|l: Layer| l.path@)
}

/// Whether a layer list can be mounted: it is non-empty and every path is a directory.
pub open spec fn layers_valid(layers: Seq<Layer>) -> bool {
    layers.len() > 0 && forall|i: int| 0 <= i < layers.len() ==> #[trigger] layers[i].is_dir
}

/// The error a mount request meets before anything is created, if any.
/// `live` tells whether the operating system reports the target as mounted.
pub open spec fn mount_check(
    mounted: Set<Seq<char>>,
    layers: Seq<Layer>,
    target: Seq<char>,
    live: bool,
) -> Option<SnapshotError> {
    if !layers_valid(layers) {
        Some(SnapshotError::InvalidLayer)
    } else if live || mounted.contains(target) {
        Some(SnapshotError::MountTargetBusy)
    } else {
        None
    }
}

/// The error an unmount request meets before anything is detached, if any.
pub open spec fn unmount_check(live: bool) -> Option<SnapshotError> {
    if live {
        None
    } else {
        Some(SnapshotError::MountNotFound)
    }
}

/// The directories that a mount creates for its work directory.
pub open spec fn created_dirs(work: Seq<char>) -> Set<Seq<char>> {
    set![work, upper_of(work), scratch_of(work)]
}

/// Mount table and directories after a mount of `target` backed by `work`.
/// On failure the created directories are removed again.
pub open spec fn after_mount(
    mounts: Set<Seq<char>>,
    dirs: Set<Seq<char>>,
    target: Seq<char>,
    work: Seq<char>,
    ok: bool,
) -> (Set<Seq<char>>, Set<Seq<char>>) {
    if ok {
        (mounts.insert(target), dirs + created_dirs(work))
    } else {
        (mounts, (dirs + created_dirs(work)).filter(|d: Seq<char>| !under(d, work)))
    }
}

/// Mount table and directories after `target` is detached and `work` removed.
pub open spec fn after_unmount(
    mounts: Set<Seq<char>>,
    dirs: Set<Seq<char>>,
    target: Seq<char>,
    work: Seq<char>,
) -> (Set<Seq<char>>, Set<Seq<char>>) {
    (mounts.remove(target), dirs.filter(|d: Seq<char>| !under(d, work)))
}

/// The mount paths of a list of mount points.
pub open spec fn paths_of(active: Seq<MountPoint>) -> Set<Seq<char>> {
    Set::new(|p: Seq<char>| exists|i: int| 0 <= i < active.len() && #[trigger] active[i].mount_path@ == p)
}

/// What the caller must do to attach a mount: create `work_dir`, `upper_dir`
/// and `scratch_dir`, then mount `fs_type` at `target` with `options`.
#[derive(Clone, Debug)]
pub struct MountRequest {
    pub fs_type: String,
    pub target: String,
    pub options: String,
    pub work_dir: String,
    pub upper_dir: String,
    pub scratch_dir: String,
}

/// What the caller must do to release a mount: detach `target`, then remove
/// the tree at `work_dir`.
#[derive(Clone, Debug)]
pub struct UnmountRequest {
    pub target: String,
    pub work_dir: String,
}

/// A snapshot driver of one backend. It numbers the work directories it
/// allocates under `work_root` and records the mounts it has made.
pub struct Driver {
    pub kind: SnapshotType,
    pub work_root: String,
    pub next_id: u64,
    pub active: Vec<MountPoint>,
}

/// The capability every backend exposes, in two steps per operation: the
/// driver decides, the caller performs the system call and reports back.
pub trait Snapshotter {
    fn begin_mount(&mut self, layers: &Vec<Layer>, mount_path: &str, live: bool) -> Result<
        MountRequest,
        SnapshotError,
    >;

    fn complete_mount(&mut self, req: &MountRequest, ok: bool) -> Result<MountPoint, SnapshotError>;

    fn begin_unmount(&self, mount_point: &MountPoint, live: bool) -> Result<
        UnmountRequest,
        SnapshotError,
    >;

    fn complete_unmount(&mut self, mount_point: &MountPoint, detached: bool, removed: bool) -> Result<
        (),
        SnapshotError,
    >;
}

fn digit_str(d: u64) -> (r: String)
    requires
        d < 10,
    ensures
        r@ == seq![digit_char(d as nat)],
{
    let s = if d == 0 { "0" } else if d == 1 { "1" } else if d == 2 { "2" } else if d == 3 { "3" }
    else if d == 4 { "4" } else if d == 5 { "5" } else if d == 6 { "6" } else if d == 7 { "7" }
    else if d == 8 { "8" } else { "9" };
    proof {
        reveal_strlit("0"); reveal_strlit("1"); reveal_strlit("2"); reveal_strlit("3");
        reveal_strlit("4"); reveal_strlit("5"); reveal_strlit("6"); reveal_strlit("7");
        reveal_strlit("8"); reveal_strlit("9");
    }
    let r = s.to_owned();
    assert(r@ =~= seq![digit_char(d as nat)]);
    r
}

/// The decimal text of `n`.
fn decimal_string(n: u64) -> (r: String)
    ensures
        r@ == decimal(n as nat),
    decreases n,
{
    if n < 10 {
        digit_str(n)
    } else {
        let mut s = decimal_string(n / 10);
        let d = digit_str(n % 10);
        s.append(d.as_str());
        assert(s@ =~= decimal((n / 10) as nat).push(digit_char((n % 10) as nat)));
        s
    }
}

fn concat(a: &str, b: &str) -> (r: String)
    ensures
        r@ == a@ + b@,
{
    let mut r = a.to_owned();
    r.append(b);
    r
}

impl Driver {
    /// The mount paths this driver has mounted and not yet released.
    pub open spec fn mounted(&self) -> Set<Seq<char>> {
        paths_of(self.active@)
    }

    /// Whether the driver has an active mount at `path`.
    pub fn is_mounted(&self, path: &str) -> (r: bool)
        ensures
            r == self.mounted().contains(path@),
    {
        let mut i: usize = 0;
        while i < self.active.len()
            invariant
                i <= self.active@.len(),
                forall|j: int| 0 <= j < i ==> self.active@[j].mount_path@ != path@,
            decreases self.active@.len() - i,
        {
            if str_equal(self.active[i].mount_path.as_str(), path) {
                assert(self.active@[i as int].mount_path@ == path@);
                return true;
            }
            i = i + 1;
        }
        false
    }

    /// Decides a mount of `layers` (bottommost first) at `mount_path`.
    /// `live` tells whether the operating system reports the target as mounted.
    /// On success the next work directory is allocated; nothing else changes.
    pub fn begin_mount(&mut self, layers: &Vec<Layer>, mount_path: &str, live: bool) -> (r: Result<
        MountRequest,
        SnapshotError,
    >)
        ensures
            final(self).kind == old(self).kind,
            final(self).work_root@ == old(self).work_root@,
            final(self).active@ == old(self).active@,
            match mount_check(old(self).mounted(), layers@, mount_path@, live) {
                Some(e) => r == Err::<MountRequest, SnapshotError>(e) && final(self).next_id
                    == old(self).next_id,
                None => r is Ok && final(self).next_id == (if old(self).next_id == u64::MAX {
                    0
                } else {
                    old(self).next_id + 1
                }) && {
                    let req = r->Ok_0;
                    let work = work_path(old(self).work_root@, old(self).next_id as nat);
                    &&& req.fs_type@ == fs_type_of(old(self).kind)
                    &&& req.target@ == mount_path@
                    &&& req.work_dir@ == work
                    &&& req.upper_dir@ == upper_of(work)
                    &&& req.scratch_dir@ == scratch_of(work)
                    &&& req.options@ == options_of(layer_paths(layers@), work)
                },
            },
    {
        if layers.len() == 0 {
            return Err(SnapshotError::InvalidLayer);
        }
        let mut paths: Vec<String> = Vec::new();
        let mut i: usize = 0;
        while i < layers.len()
            invariant
                i <= layers@.len(),
                paths@.len() == i,
                forall|j: int| 0 <= j < i ==> #[trigger] layers@[j].is_dir,
                forall|j: int| 0 <= j < i ==> #[trigger] paths@[j]@ == layers@[j].path@,
            decreases layers@.len() - i,
        {
            if !layers[i].is_dir {
                return Err(SnapshotError::InvalidLayer);
            }
            paths.push(layers[i].path.clone());
            i = i + 1;
        }
        if live || self.is_mounted(mount_path) {
            return Err(SnapshotError::MountTargetBusy);
        }
        let id = self.next_id;
        self.next_id = if id == u64::MAX { 0 } else { id + 1 };
        let num = decimal_string(id);
        let base = concat(self.work_root.as_str(), "/");
        let work_dir = concat(base.as_str(), num.as_str());
        let upper_dir = concat(work_dir.as_str(), "/upper");
        let scratch_dir = concat(work_dir.as_str(), "/work");
        let lower = lowerdir_option(&paths);
        assert(paths@.map_values(|p: String| p@) =~= layer_paths(layers@));
        let o1 = concat("lowerdir=", lower.as_str());
        let o2 = concat(o1.as_str(), ",upperdir=");
        let o3 = concat(o2.as_str(), upper_dir.as_str());
        let o4 = concat(o3.as_str(), ",workdir=");
        let options = concat(o4.as_str(), scratch_dir.as_str());
        let fs_type = match self.kind {
            SnapshotType::OcclumUnionfs => "unionfs".to_owned(),
            _ => "overlay".to_owned(),
        };
        Ok(MountRequest {
            fs_type,
            target: mount_path.to_owned(),
            options,
            work_dir,
            upper_dir,
            scratch_dir,
        })
    }

    /// Records the outcome of the mount system call for `req`. On failure the
    /// caller removes `req.work_dir` and everything below it.
    pub fn complete_mount(&mut self, req: &MountRequest, ok: bool) -> (r: Result<
        MountPoint,
        SnapshotError,
    >)
        ensures
            final(self).kind == old(self).kind,
            final(self).work_root@ == old(self).work_root@,
            final(self).next_id == old(self).next_id,
            !ok ==> r == Err::<MountPoint, SnapshotError>(SnapshotError::MountOperationFailed)
                && final(self).active@ == old(self).active@,
            ok ==> r is Ok && r->Ok_0.kind@ == req.fs_type@ && r->Ok_0.mount_path@
                == req.target@ && r->Ok_0.work_dir@ == req.work_dir@,
            ok ==> final(self).active@.len() == old(self).active@.len() + 1
                && final(self).active@.drop_last() == old(self).active@
                && final(self).active@.last().mount_path@ == req.target@
                && final(self).active@.last().work_dir@ == req.work_dir@,
            ok ==> final(self).mounted() == old(self).mounted().insert(req.target@),
    {
        if !ok {
            return Err(SnapshotError::MountOperationFailed);
        }
        let mp = MountPoint {
            kind: req.fs_type.clone(),
            mount_path: req.target.clone(),
            work_dir: req.work_dir.clone(),
        };
        let ghost before = self.active@;
        self.active.push(mp.duplicate());
        proof {
            let after = self.active@;
            assert forall|p: Seq<char>| paths_of(after).contains(p) == paths_of(before).insert(
                req.target@,
            ).contains(p) by {
                if paths_of(before).contains(p) {
                    let i = choose|i: int| 0 <= i < before.len() && #[trigger] before[i].mount_path@ == p;
                    assert(after[i].mount_path@ == p);
                }
                if p == req.target@ {
                    assert(after[before.len() as int].mount_path@ == p);
                }
                if paths_of(after).contains(p) {
                    let i = choose|i: int| 0 <= i < after.len() && #[trigger] after[i].mount_path@ == p;
                    if i < before.len() {
                        assert(before[i].mount_path@ == p);
                    }
                }
            }
            assert(paths_of(after) =~= paths_of(before).insert(req.target@));
            assert(after.drop_last() =~= before);
        }
        Ok(mp)
    }

    /// Decides an unmount of `mount_point`. `live` tells whether the operating
    /// system reports its mount path as mounted; the record alone proves nothing.
    pub fn begin_unmount(&self, mount_point: &MountPoint, live: bool) -> (r: Result<
        UnmountRequest,
        SnapshotError,
    >)
        ensures
            unmount_check(live) matches Some(e) ==> r == Err::<UnmountRequest, SnapshotError>(e),
            live ==> r is Ok && r->Ok_0.target@ == mount_point.mount_path@ && r->Ok_0.work_dir@
                == mount_point.work_dir@,
    {
        if !live {
            return Err(SnapshotError::MountNotFound);
        }
        Ok(UnmountRequest {
            target: mount_point.mount_path.clone(),
            work_dir: mount_point.work_dir.clone(),
        })
    }

    /// Records the outcome of an unmount: whether the detach call succeeded and
    /// whether the work directory was then removed. A detached mount is forgotten
    /// even when its directory stays behind.
    pub fn complete_unmount(&mut self, mount_point: &MountPoint, detached: bool, removed: bool) -> (r:
        Result<(), SnapshotError>)
        ensures
            final(self).kind == old(self).kind,
            final(self).work_root@ == old(self).work_root@,
            final(self).next_id == old(self).next_id,
            !detached ==> r == Err::<(), SnapshotError>(SnapshotError::MountOperationFailed)
                && final(self).active@ == old(self).active@,
            detached ==> final(self).mounted() == old(self).mounted().remove(
                mount_point.mount_path@,
            ),
            detached && !removed ==> r == Err::<(), SnapshotError>(SnapshotError::CleanupFailed),
            detached && removed ==> r == Ok::<(), SnapshotError>(()),
    {
        if !detached {
            return Err(SnapshotError::MountOperationFailed);
        }
        let ghost before = self.active@;
        let ghost target = mount_point.mount_path@;
        let mut kept: Vec<MountPoint> = Vec::new();
        let mut i: usize = 0;
        while i < self.active.len()
            invariant
                i <= self.active@.len(),
                before == self.active@,
                target == mount_point.mount_path@,
                forall|p: Seq<char>| #[trigger] paths_of(kept@).contains(p) <==> (p != target && exists|j: int|
                    0 <= j < i && #[trigger] before[j].mount_path@ == p),
            decreases self.active@.len() - i,
        {
            let m = &self.active[i];
            if !str_equal(m.mount_path.as_str(), mount_point.mount_path.as_str()) {
                let ghost old_kept = kept@;
                kept.push(m.duplicate());
                proof {
                    assert forall|p: Seq<char>| #[trigger] paths_of(kept@).contains(p) <==> (p != target
                        && exists|j: int| 0 <= j < i + 1 && #[trigger] before[j].mount_path@ == p) by {
                        if paths_of(kept@).contains(p) {
                            let k = choose|k: int| 0 <= k < kept@.len() && #[trigger] kept@[k].mount_path@ == p;
                            if k < old_kept.len() {
                                assert(old_kept[k].mount_path@ == p);
                                assert(paths_of(old_kept).contains(p));
                            } else {
                                assert(before[i as int].mount_path@ == p);
                            }
                        }
                        if p != target && exists|j: int| 0 <= j < i + 1 && #[trigger] before[j].mount_path@ == p {
                            let j = choose|j: int| 0 <= j < i + 1 && #[trigger] before[j].mount_path@ == p;
                            if j < i {
                                assert(paths_of(old_kept).contains(p));
                                let k = choose|k: int| 0 <= k < old_kept.len() && #[trigger] old_kept[k].mount_path@ == p;
                                assert(kept@[k].mount_path@ == p);
                            } else {
                                assert(kept@[old_kept.len() as int].mount_path@ == p);
                            }
                        }
                    }
                }
            } else {
                proof {
                    assert forall|p: Seq<char>| #[trigger] paths_of(kept@).contains(p) <==> (p != target
                        && exists|j: int| 0 <= j < i + 1 && #[trigger] before[j].mount_path@ == p) by {
                        if p != target && exists|j: int| 0 <= j < i + 1 && #[trigger] before[j].mount_path@ == p {
                            let j = choose|j: int| 0 <= j < i + 1 && #[trigger] before[j].mount_path@ == p;
                            assert(j < i);
                        }
                    }
                }
            }
            i = i + 1;
        }
        self.active = kept;
        assert(self.mounted() =~= paths_of(before).remove(target));
        if !removed {
            return Err(SnapshotError::CleanupFailed);
        }
        Ok(())
    }
}

impl Snapshotter for Driver {
    fn begin_mount(&mut self, layers: &Vec<Layer>, mount_path: &str, live: bool) -> Result<
        MountRequest,
        SnapshotError,
    > {
        Driver::begin_mount(self, layers, mount_path, live)
    }

    fn complete_mount(&mut self, req: &MountRequest, ok: bool) -> Result<MountPoint, SnapshotError> {
        Driver::complete_mount(self, req, ok)
    }

    fn begin_unmount(&self, mount_point: &MountPoint, live: bool) -> Result<
        UnmountRequest,
        SnapshotError,
    > {
        Driver::begin_unmount(self, mount_point, live)
    }

    fn complete_unmount(&mut self, mount_point: &MountPoint, detached: bool, removed: bool) -> Result<
        (),
        SnapshotError,
    > {
        Driver::complete_unmount(self, mount_point, detached, removed)
    }
}

/// The directories a mount creates all lie in its work directory.
pub proof fn lemma_created_dirs_under_work(work: Seq<char>)
    ensures
        forall|d: Seq<char>| #[trigger] created_dirs(work).contains(d) ==> under(d, work),
{
    reveal_strlit("/");
    reveal_strlit("/upper");
    reveal_strlit("/work");
    assert((work + "/"@) =~= upper_of(work).subrange(0, work.len() as int + 1));
    assert((work + "/"@) =~= scratch_of(work).subrange(0, work.len() as int + 1));
}

/// Mounting at a free path with a fresh work directory and then unmounting
/// leaves the mount table, the directories and the driver's record of its
/// mounts as they were.
pub proof fn lemma_mount_unmount_round_trip(
    mounts: Set<Seq<char>>,
    dirs: Set<Seq<char>>,
    recorded: Set<Seq<char>>,
    target: Seq<char>,
    work: Seq<char>,
)
    requires
        !mounts.contains(target),
        !recorded.contains(target),
        forall|d: Seq<char>| #[trigger] dirs.contains(d) ==> !under(d, work),
    ensures
        ({
            let (m1, d1) = after_mount(mounts, dirs, target, work, true);
            after_unmount(m1, d1, target, work) == (mounts, dirs)
        }),
        recorded.insert(target).remove(target) == recorded,
{
    assert(recorded.insert(target).remove(target) =~= recorded);
    lemma_created_dirs_under_work(work);
    let (m1, d1) = after_mount(mounts, dirs, target, work, true);
    assert(m1.remove(target) =~= mounts);
    assert(d1.filter(|d: Seq<char>| !under(d, work)) =~= dirs);
}

/// A mount whose system call fails leaves the mount table and the
/// directories as they were, when its work directory was fresh.
pub proof fn lemma_failed_mount_leaves_nothing(
    mounts: Set<Seq<char>>,
    dirs: Set<Seq<char>>,
    target: Seq<char>,
    work: Seq<char>,
)
    requires
        forall|d: Seq<char>| #[trigger] dirs.contains(d) ==> !under(d, work),
    ensures
        after_mount(mounts, dirs, target, work, false) == (mounts, dirs),
{
    lemma_created_dirs_under_work(work);
    let (m1, d1) = after_mount(mounts, dirs, target, work, false);
    assert(d1 =~= dirs);
}

/// Once a mount at `target` has succeeded, a second mount at the same path is
/// refused as busy, whatever the system reports.
pub proof fn lemma_second_mount_busy(
    mounted: Set<Seq<char>>,
    layers: Seq<Layer>,
    target: Seq<char>,
    live_first: bool,
    live_second: bool,
)
    requires
        mount_check(mounted, layers, target, live_first) is None,
    ensures
        mount_check(mounted.insert(target), layers, target, live_second) == Some(
            SnapshotError::MountTargetBusy,
        ),
{
}

/// After an unmount of `target`, the system holds no mount there, so a second
/// unmount of the same mount point is reported as not found; the driver's
/// record of the path is gone as well.
pub proof fn lemma_second_unmount_not_found(
    mounts: Set<Seq<char>>,
    dirs: Set<Seq<char>>,
    recorded: Set<Seq<char>>,
    target: Seq<char>,
    work: Seq<char>,
)
    ensures
        unmount_check(after_unmount(mounts, dirs, target, work).0.contains(target)) == Some(
            SnapshotError::MountNotFound,
        ),
        !recorded.remove(target).contains(target),
{
}

/// A layer list that is empty or holds a path that is not a directory is
/// refused as invalid before anything is allocated.
pub proof fn lemma_invalid_layer_refused(
    mounted: Set<Seq<char>>,
    layers: Seq<Layer>,
    target: Seq<char>,
    live: bool,
    i: int,
)
    requires
        0 <= i < layers.len(),
        !layers[i].is_dir,
    ensures
        mount_check(mounted, layers, target, live) == Some(SnapshotError::InvalidLayer),
{
}

/// Builds the driver of a backend from `backends`, with its work directories
/// under `work_root`.
pub fn create_with(backends: Backends, kind: SnapshotType, work_root: String) -> (r: Result<
    Driver,
    SnapshotError,
>)
    ensures
        !backends.provides(kind) ==> r == Err::<Driver, SnapshotError>(
            SnapshotError::UnsupportedSnapshotType,
        ),
        backends.provides(kind) ==> r is Ok && r->Ok_0.kind == kind && r->Ok_0.work_root@
            == work_root@ && r->Ok_0.next_id == 0 && r->Ok_0.active@.len() == 0,
{
    if !backends.provides_type(kind) {
        return Err(SnapshotError::UnsupportedSnapshotType);
    }
    Ok(Driver { kind, work_root, next_id: 0, active: Vec::new() })
}

/// Builds the driver of a backend built into this library.
pub fn create(kind: SnapshotType, work_root: String) -> (r: Result<Driver, SnapshotError>)
    ensures
        kind == SnapshotType::Unknown ==> r == Err::<Driver, SnapshotError>(
            SnapshotError::UnsupportedSnapshotType,
        ),
        kind != SnapshotType::Unknown ==> r is Ok && r->Ok_0.kind == kind && r->Ok_0.work_root@
            == work_root@ && r->Ok_0.next_id == 0 && r->Ok_0.active@.len() == 0,
{
    create_with(Backends::compiled(), kind, work_root)
}

} // verus!
