use snapshots::{
    create, create_with, lowerdir_option, Backends, Driver, Layer, MountPoint, SnapshotError,
    SnapshotType,
};

fn layer(path: &str, is_dir: bool) -> Layer {
    Layer { path: path.to_string(), is_dir }
}

fn driver(kind: SnapshotType) -> Driver {
    match create(kind, "/var/snap".to_string()) {
        Ok(d) => d,
        Err(e) => panic!("driver not created: {:?}", e),
    }
}

#[test]
fn default_is_overlay() {
    assert_eq!(SnapshotType::default(), SnapshotType::Overlay);
}

#[test]
fn display_names() {
    assert_eq!(SnapshotType::Unknown.display(), "unknown");
    assert_eq!(SnapshotType::Overlay.display(), "overlay");
    assert_eq!(SnapshotType::OcclumUnionfs.display(), "occlum_unionfs");
}

#[test]
fn default_display_round_trips() {
    let d = SnapshotType::default();
    assert_eq!(SnapshotType::from_name(&d.display()), Some(d));
}

#[test]
fn every_name_round_trips() {
    for t in [SnapshotType::Unknown, SnapshotType::Overlay, SnapshotType::OcclumUnionfs] {
        assert_eq!(SnapshotType::from_name(&t.display()), Some(t));
    }
}

#[test]
fn parse_is_exact_lowercase() {
    assert_eq!(SnapshotType::from_name("Overlay"), None);
    assert_eq!(SnapshotType::from_name("overlayfs"), None);
    assert_eq!(SnapshotType::from_name(""), None);
}

#[test]
fn preferred_backend() {
    let both = Backends { overlayfs: true, unionfs: true };
    let union_only = Backends { overlayfs: false, unionfs: true };
    let none = Backends { overlayfs: false, unionfs: false };
    assert_eq!(both.preferred(), SnapshotType::Overlay);
    assert_eq!(union_only.preferred(), SnapshotType::OcclumUnionfs);
    assert_eq!(none.preferred(), SnapshotType::Unknown);
}

#[test]
fn unknown_type_is_unsupported() {
    assert!(matches!(
        create(SnapshotType::Unknown, "/var/snap".to_string()),
        Err(SnapshotError::UnsupportedSnapshotType)
    ));
}

#[test]
fn backend_not_built_in_is_unsupported() {
    let overlay_only = Backends { overlayfs: true, unionfs: false };
    assert!(matches!(
        create_with(overlay_only, SnapshotType::OcclumUnionfs, "/w".to_string()),
        Err(SnapshotError::UnsupportedSnapshotType)
    ));
    assert!(create_with(overlay_only, SnapshotType::Overlay, "/w".to_string()).is_ok());
}

#[test]
fn lowerdir_lists_topmost_first() {
    let paths = vec!["/l0".to_string(), "/l1".to_string(), "/l2".to_string()];
    assert_eq!(lowerdir_option(&paths), "/l2:/l1:/l0");
    assert_eq!(lowerdir_option(&vec!["/only".to_string()]), "/only");
}

#[test]
fn layered_image_scenario() {
    let mut d = driver(SnapshotType::Overlay);
    let layers = vec![layer("/img/base", true), layer("/img/app", true)];
    let req = d.begin_mount(&layers, "/run/c1/rootfs", false).unwrap();
    assert_eq!(req.fs_type, "overlay");
    assert_eq!(req.target, "/run/c1/rootfs");
    assert_eq!(req.work_dir, "/var/snap/0");
    assert_eq!(req.upper_dir, "/var/snap/0/upper");
    assert_eq!(req.scratch_dir, "/var/snap/0/work");
    assert_eq!(
        req.options,
        "lowerdir=/img/app:/img/base,upperdir=/var/snap/0/upper,workdir=/var/snap/0/work"
    );
    let mp = d.complete_mount(&req, true).unwrap();
    assert_eq!(mp.kind, "overlay");
    assert_eq!(mp.mount_path, "/run/c1/rootfs");
    assert_eq!(mp.work_dir, "/var/snap/0");
}

#[test]
fn single_layer_still_writable() {
    let mut d = driver(SnapshotType::Overlay);
    let req = d.begin_mount(&vec![layer("/img/base", true)], "/m", false).unwrap();
    assert_eq!(req.options, "lowerdir=/img/base,upperdir=/var/snap/0/upper,workdir=/var/snap/0/work");
}

#[test]
fn unionfs_reports_its_type() {
    let mut d = driver(SnapshotType::OcclumUnionfs);
    let req = d.begin_mount(&vec![layer("/a", true)], "/m", false).unwrap();
    assert_eq!(req.fs_type, "unionfs");
    let mp = d.complete_mount(&req, true).unwrap();
    assert_eq!(mp.kind, "unionfs");
}

#[test]
fn work_dirs_are_numbered() {
    let mut d = driver(SnapshotType::Overlay);
    let a = d.begin_mount(&vec![layer("/a", true)], "/m1", false).unwrap();
    let b = d.begin_mount(&vec![layer("/a", true)], "/m2", false).unwrap();
    assert_eq!(a.work_dir, "/var/snap/0");
    assert_eq!(b.work_dir, "/var/snap/1");
    d.next_id = 1207;
    let c = d.begin_mount(&vec![layer("/a", true)], "/m3", false).unwrap();
    assert_eq!(c.work_dir, "/var/snap/1207");
    assert_eq!(d.next_id, 1208);
}

#[test]
fn counter_wraps_at_the_largest_id() {
    let mut d = driver(SnapshotType::Overlay);
    d.next_id = u64::MAX;
    let r = d.begin_mount(&vec![layer("/a", true)], "/m", false).unwrap();
    assert_eq!(r.work_dir, "/var/snap/18446744073709551615");
    assert_eq!(d.next_id, 0);
}

#[test]
fn empty_layer_list_is_invalid() {
    let mut d = driver(SnapshotType::Overlay);
    assert!(matches!(d.begin_mount(&vec![], "/m", false), Err(SnapshotError::InvalidLayer)));
    assert_eq!(d.next_id, 0);
}

#[test]
fn missing_layer_is_invalid_and_allocates_nothing() {
    let mut d = driver(SnapshotType::Overlay);
    let layers = vec![layer("/img/base", true), layer("/img/missing", false)];
    assert!(matches!(d.begin_mount(&layers, "/m", false), Err(SnapshotError::InvalidLayer)));
    assert_eq!(d.next_id, 0);
    assert!(d.active.is_empty());
}

#[test]
fn invalid_layer_reported_before_busy_target() {
    let mut d = driver(SnapshotType::Overlay);
    assert!(matches!(
        d.begin_mount(&vec![layer("/x", false)], "/m", true),
        Err(SnapshotError::InvalidLayer)
    ));
}

#[test]
fn target_mounted_by_the_system_is_busy() {
    let mut d = driver(SnapshotType::Overlay);
    assert!(matches!(
        d.begin_mount(&vec![layer("/a", true)], "/m", true),
        Err(SnapshotError::MountTargetBusy)
    ));
    assert_eq!(d.next_id, 0);
}

#[test]
fn second_mount_at_same_path_is_busy() {
    let mut d = driver(SnapshotType::Overlay);
    let layers = vec![layer("/a", true)];
    let req = d.begin_mount(&layers, "/m", false).unwrap();
    let first = d.complete_mount(&req, true).unwrap();
    assert!(matches!(d.begin_mount(&layers, "/m", false), Err(SnapshotError::MountTargetBusy)));
    assert!(d.is_mounted("/m"));
    assert_eq!(d.active.len(), 1);
    assert_eq!(d.active[0].work_dir, first.work_dir);
    assert!(d.begin_mount(&layers, "/other", false).is_ok());
}

#[test]
fn failed_mount_is_not_recorded() {
    let mut d = driver(SnapshotType::Overlay);
    let req = d.begin_mount(&vec![layer("/a", true)], "/m", false).unwrap();
    assert!(matches!(d.complete_mount(&req, false), Err(SnapshotError::MountOperationFailed)));
    assert!(!d.is_mounted("/m"));
    assert!(d.begin_mount(&vec![layer("/a", true)], "/m", false).is_ok());
}

#[test]
fn mount_then_unmount_round_trip() {
    let mut d = driver(SnapshotType::Overlay);
    let req = d.begin_mount(&vec![layer("/a", true)], "/m", false).unwrap();
    let mp = d.complete_mount(&req, true).unwrap();
    let un = d.begin_unmount(&mp, true).unwrap();
    assert_eq!(un.target, "/m");
    assert_eq!(un.work_dir, req.work_dir);
    assert_eq!(d.complete_unmount(&mp, true, true), Ok(()));
    assert!(!d.is_mounted("/m"));
    assert!(d.active.is_empty());
}

#[test]
fn second_unmount_is_not_found() {
    let mut d = driver(SnapshotType::Overlay);
    let req = d.begin_mount(&vec![layer("/a", true)], "/m", false).unwrap();
    let mp = d.complete_mount(&req, true).unwrap();
    assert!(d.begin_unmount(&mp, true).is_ok());
    assert_eq!(d.complete_unmount(&mp, true, true), Ok(()));
    assert!(matches!(d.begin_unmount(&mp, false), Err(SnapshotError::MountNotFound)));
}

#[test]
fn failed_detach_is_operation_failure() {
    let mut d = driver(SnapshotType::Overlay);
    let req = d.begin_mount(&vec![layer("/a", true)], "/m", false).unwrap();
    let mp = d.complete_mount(&req, true).unwrap();
    assert_eq!(d.complete_unmount(&mp, false, false), Err(SnapshotError::MountOperationFailed));
    assert!(d.is_mounted("/m"));
}

#[test]
fn busy_work_dir_is_cleanup_failure() {
    let mut d = driver(SnapshotType::Overlay);
    let req = d.begin_mount(&vec![layer("/a", true)], "/m", false).unwrap();
    let mp = d.complete_mount(&req, true).unwrap();
    assert_eq!(d.complete_unmount(&mp, true, false), Err(SnapshotError::CleanupFailed));
    assert!(!d.is_mounted("/m"));
}

#[test]
fn unmount_keeps_other_mounts() {
    let mut d = driver(SnapshotType::Overlay);
    let r1 = d.begin_mount(&vec![layer("/a", true)], "/m1", false).unwrap();
    let m1 = d.complete_mount(&r1, true).unwrap();
    let r2 = d.begin_mount(&vec![layer("/a", true)], "/m2", false).unwrap();
    let _m2 = d.complete_mount(&r2, true).unwrap();
    assert_eq!(d.complete_unmount(&m1, true, true), Ok(()));
    assert!(!d.is_mounted("/m1"));
    assert!(d.is_mounted("/m2"));
}

#[test]
fn stored_mount_point_can_be_unmounted() {
    let d = driver(SnapshotType::Overlay);
    let mp = MountPoint {
        kind: "overlay".to_string(),
        mount_path: "/m".to_string(),
        work_dir: "/var/snap/4".to_string(),
    };
    let un = d.begin_unmount(&mp, true).unwrap();
    assert_eq!(un.work_dir, "/var/snap/4");
    let copy = mp.duplicate();
    assert_eq!(copy.mount_path, mp.mount_path);
}
