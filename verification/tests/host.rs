use fs_writer::fs_id::{Filesystem, PROBE_LEN};
use fs_writer::host::{
    boot_command_line, launch_plan, log_level_for, plan_run, AppError, LogLevel,
};

fn ext4_probe() -> Vec<u8> {
    let mut b = vec![0u8; PROBE_LEN];
    b[0x438] = 0x53;
    b[0x439] = 0xEF;
    b
}

#[test]
fn boot_command_line_is_exact() {
    assert_eq!(
        boot_command_line(Filesystem::Ext4),
        "quiet mitigations=off panic=-1 reboot=t init=/init RUST_BACKTRACE=1 -- /dev/vdb /dev/vdc ext4"
    );
    assert_eq!(
        boot_command_line(Filesystem::Xfs),
        "quiet mitigations=off panic=-1 reboot=t init=/init RUST_BACKTRACE=1 -- /dev/vdb /dev/vdc xfs"
    );
}

#[test]
fn launch_plan_orders_the_disks() {
    let p = launch_plan(
        Filesystem::Btrfs,
        "root.ext4".to_string(),
        "archive.tar.gz".to_string(),
        "target.img".to_string(),
    );
    assert!(p.rootfs.read_only);
    assert_eq!(p.rootfs.path, "root.ext4");
    assert_eq!(p.extra_disks.len(), 2);
    assert_eq!(p.extra_disks[0].path, "archive.tar.gz");
    assert!(p.extra_disks[0].read_only);
    assert_eq!(p.extra_disks[1].path, "target.img");
    assert!(!p.extra_disks[1].read_only);
    assert_eq!(p.vcpu_count, 1);
    assert_eq!(p.mem_size_mib, 128);
}

#[test]
fn admits_an_aligned_run() {
    let plan = plan_run(&ext4_probe(), "in.tar.gz", "out.img", 1024, false).unwrap();
    assert_eq!(plan.fs, Filesystem::Ext4);
    assert_eq!(plan.pad_bytes, 0);
}

#[test]
fn repairs_a_misaligned_run_when_asked() {
    let plan = plan_run(&ext4_probe(), "in.tar.gz", "out.img", 513, true).unwrap();
    assert_eq!(plan.fs, Filesystem::Ext4);
    assert_eq!(plan.pad_bytes, 511);
}

#[test]
fn rejects_a_misaligned_run_without_repair() {
    let r = plan_run(&ext4_probe(), "in.tar.gz", "out.img", 513, false);
    match r {
        Err(AppError::BadInputFile(p)) => {
            assert_eq!(p, "in.tar.gz");
        }
        _ => panic!("expected a misaligned-input error"),
    }
}

#[test]
fn rejects_an_undetected_filesystem() {
    let zeroes = vec![0u8; PROBE_LEN];
    let r = plan_run(&zeroes, "in.tar.gz", "out.img", 1024, false);
    match r {
        Err(AppError::BadFs(p)) => {
            assert_eq!(p, "out.img");
        }
        _ => panic!("expected a bad-filesystem error"),
    }
}

#[test]
fn rejects_a_short_probe_as_unexpected() {
    let short = vec![0u8; 16];
    let r = plan_run(&short, "in.tar.gz", "out.img", 1024, false);
    match r {
        Err(e @ AppError::Unexpected(_)) => {
            assert_eq!(e.exit_code(), 2);
        }
        _ => panic!("expected an unexpected error"),
    }
}

#[test]
fn error_messages_and_exit_codes() {
    let e = AppError::BadFs("out.img".to_string());
    assert_eq!(
        e.message(),
        "Could not detect a valid filesystem on file 'out.img'"
    );
    assert_eq!(e.exit_code(), 1);

    let e = AppError::BadInputFile("in.tar.gz".to_string());
    assert_eq!(
        e.message(),
        "Input file (in.tar.gz) must be a multiple of 512 bytes, refusing to continue. Pass --pad-input-with-zeroes to get the file fixed"
    );
    assert_eq!(e.exit_code(), 1);

    let e = AppError::Unexpected("boom".to_string());
    assert_eq!(e.message(), "Unexpected error: boom");
    assert_eq!(e.exit_code(), 2);
}

#[test]
fn verbosity_maps_to_levels() {
    assert_eq!(log_level_for(0), LogLevel::Warn);
    assert_eq!(log_level_for(1), LogLevel::Info);
    assert_eq!(log_level_for(2), LogLevel::Debug);
    assert_eq!(log_level_for(3), LogLevel::Trace);
    assert_eq!(log_level_for(255), LogLevel::Trace);
}
