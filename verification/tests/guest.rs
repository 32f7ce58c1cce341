use fs_writer::guest::{
    guest_step, makedev, mknod_request, mount_pseudo, mount_target_request, parse_boot_args,
    setup_environment_plan, GuestPhase, MNT_NOATIME, MNT_NODIRATIME, NODE_MODE_BITS, S_IFBLK,
    S_IFCHR,
};

#[test]
fn pseudo_mounts_have_no_backing_device() {
    let m = mount_pseudo("/proc", "proc");
    assert_eq!(m.source, "none");
    assert_eq!(m.target, "/proc");
    assert_eq!(m.fstype, "proc");
    assert_eq!(m.flags, MNT_NOATIME | MNT_NODIRATIME);
}

#[test]
fn environment_plan_mounts_three_pseudo_filesystems() {
    let (mounts, null_node) = setup_environment_plan();
    assert_eq!(mounts.len(), 3);
    assert_eq!(mounts[0].target, "/proc");
    assert_eq!(mounts[0].fstype, "proc");
    assert_eq!(mounts[1].target, "/sys");
    assert_eq!(mounts[1].fstype, "sysfs");
    assert_eq!(mounts[2].target, "/dev");
    assert_eq!(mounts[2].fstype, "tmpfs");
    assert_eq!(null_node.path, "/dev/null");
    assert_eq!(null_node.mode, S_IFCHR | NODE_MODE_BITS);
    assert_eq!(NODE_MODE_BITS, 666);
    assert_eq!(null_node.dev, makedev(1, 3));
}

#[test]
fn makedev_composes_device_numbers() {
    assert_eq!(makedev(1, 3), 0x103);
    assert_eq!(makedev(254, 0), 254 << 8);
    assert_eq!(makedev(254, 1), (254 << 8) | 1);
    // large parts spill into the high bits
    assert_eq!(
        makedev(0x12345, 0x6789a),
        (0x12000u64 << 32) | (0x345 << 8) | (0x67800 << 12) | 0x9a
    );
}

#[test]
fn mknod_requests_carry_the_fixed_mode_bits() {
    let r = mknod_request("/dev/vda".to_string(), 254, 0, S_IFBLK);
    assert_eq!(r.path, "/dev/vda");
    assert_eq!(r.mode, S_IFBLK | 666);
    assert_eq!(r.dev, makedev(254, 0));
}

#[test]
fn boot_args_are_positional() {
    let args: Vec<String> = vec![
        "/init".to_string(),
        "/dev/vdb".to_string(),
        "/dev/vdc".to_string(),
        "ext4".to_string(),
    ];
    let b = parse_boot_args(&args).unwrap();
    assert_eq!(b.archive_dev, "/dev/vdb");
    assert_eq!(b.target_dev, "/dev/vdc");
    assert_eq!(b.fstype, "ext4");
}

#[test]
fn missing_boot_args_are_fatal() {
    let args: Vec<String> = vec![
        "/init".to_string(),
        "/dev/vdb".to_string(),
        "/dev/vdc".to_string(),
    ];
    assert!(parse_boot_args(&args).is_none());
}

#[test]
fn guest_mounts_the_target_device_only() {
    let args: Vec<String> = vec![
        "/init".to_string(),
        "/dev/vdb".to_string(),
        "/dev/vdc".to_string(),
        "xfs".to_string(),
    ];
    let b = parse_boot_args(&args).unwrap();
    let m = mount_target_request(&b);
    assert_eq!(m.source, "/dev/vdc");
    assert_eq!(m.target, "/destination");
    assert_eq!(m.fstype, "xfs");
    // no mount of the whole plan is backed by the archive device
    let (pseudo, _) = setup_environment_plan();
    for p in pseudo.iter() {
        assert_ne!(p.source, "/dev/vdb");
    }
    assert_ne!(m.source, "/dev/vdb");
}

#[test]
fn phases_advance_in_order_on_success() {
    assert_eq!(guest_step(GuestPhase::Init, true), GuestPhase::MountPseudo);
    assert_eq!(guest_step(GuestPhase::MountPseudo, true), GuestPhase::EnumerateDevices);
    assert_eq!(guest_step(GuestPhase::EnumerateDevices, true), GuestPhase::MountTarget);
    assert_eq!(guest_step(GuestPhase::MountTarget, true), GuestPhase::Extract);
    assert_eq!(guest_step(GuestPhase::Extract, true), GuestPhase::Sync);
    assert_eq!(guest_step(GuestPhase::Sync, true), GuestPhase::Done);
}

#[test]
fn environment_failures_abort() {
    assert_eq!(guest_step(GuestPhase::Init, false), GuestPhase::Aborted);
    assert_eq!(guest_step(GuestPhase::MountPseudo, false), GuestPhase::Aborted);
    assert_eq!(guest_step(GuestPhase::EnumerateDevices, false), GuestPhase::Aborted);
}

#[test]
fn late_failures_still_reach_the_flush() {
    // a failed target mount skips extraction but still syncs and halts
    assert_eq!(guest_step(GuestPhase::MountTarget, false), GuestPhase::Sync);
    // extraction errors are reported but never stop the flush
    assert_eq!(guest_step(GuestPhase::Extract, false), GuestPhase::Sync);
    assert_eq!(guest_step(GuestPhase::Sync, false), GuestPhase::Done);
}
