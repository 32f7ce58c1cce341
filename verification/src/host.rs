//! Host orchestration: decide from the probed superblock, the archive length
//! and the repair flag whether a run may proceed, with which padding, and
//! with which launch configuration (boot parameter line and ordered disk
//! list). The launcher itself, all file I/O and the logging backend consume
//! these decisions outside the library.

use crate::fs_id::{identify_fs, identify_spec, Filesystem, PROBE_LEN};
use crate::padding::{bytes_after_last_sector, pad_len, padding_needed};
use vstd::prelude::*;
use vstd::string::StringExecFns;

verus! {

/// The error taxonomy of a run: the first two are user-correctable
/// configuration errors, the last wraps any lower-level failure.
#[derive(Debug)]
pub enum AppError {
    /// No supported filesystem was detected on the named target image.
    BadFs(String),
    /// The named input archive is not a whole number of sectors and repair
    /// was not requested.
    BadInputFile(String),
    /// Any other failure; not user-correctable.
    Unexpected(String),
}

impl AppError {
    /// The user-facing message of the error.
    pub open spec fn message_spec(&self) -> Seq<char> {
        match self {
            AppError::BadFs(p) => "Could not detect a valid filesystem on file '"@ + p@ + "'"@,
            AppError::BadInputFile(p) => "Input file ("@ + p@
                + ") must be a multiple of 512 bytes, refusing to continue. Pass --pad-input-with-zeroes to get the file fixed"@,
            AppError::Unexpected(m) => "Unexpected error: "@ + m@,
        }
    }

    /// Renders the user-facing message.
    pub fn message(&self) -> (r: String)
        ensures
            r@ == self.message_spec(),
    {
        match self {
            AppError::BadFs(p) => {
                let mut s = "Could not detect a valid filesystem on file '".to_owned();
                s.append(p.as_str());
                s.append("'");
                s
            },
            AppError::BadInputFile(p) => {
                let mut s = "Input file (".to_owned();
                s.append(p.as_str());
                s.append(
                    ") must be a multiple of 512 bytes, refusing to continue. Pass --pad-input-with-zeroes to get the file fixed",
                );
                s
            },
            AppError::Unexpected(m) => {
                let mut s = "Unexpected error: ".to_owned();
                s.append(m.as_str());
                s
            },
        }
    }

    /// Which process exit code the error maps to: 1 for user-correctable
    /// configuration errors, 2 for unexpected ones. Success exits 0.
    pub open spec fn exit_code_spec(&self) -> i32 {
        match self {
            AppError::BadFs(_) => 1,
            AppError::BadInputFile(_) => 1,
            AppError::Unexpected(_) => 2,
        }
    }

    /// Returns the process exit code for this error.
    pub fn exit_code(&self) -> (r: i32)
        ensures
            r == self.exit_code_spec(),
    {
        match self {
            AppError::BadFs(_) => 1,
            AppError::BadInputFile(_) => 1,
            AppError::Unexpected(_) => 2,
        }
    }
}

/// Verbosity of the run's logging, from the count of verbose flags.
#[derive(Clone, Copy, Debug, PartialEq, Eq, Structural)]
pub enum LogLevel {
    Warn,
    Info,
    Debug,
    Trace,
}

/// The verbosity mapping: silent runs still show warnings; each additional
/// flag opens one more level.
pub open spec fn log_level_spec(verbose: u8) -> LogLevel {
    if verbose == 0 {
        LogLevel::Warn
    } else if verbose == 1 {
        LogLevel::Info
    } else if verbose == 2 {
        LogLevel::Debug
    } else {
        LogLevel::Trace
    }
}

/// Maps the verbosity counter to a log level.
pub fn log_level_for(verbose: u8) -> (r: LogLevel)
    ensures
        r == log_level_spec(verbose),
{
    if verbose == 0 {
        LogLevel::Warn
    } else if verbose == 1 {
        LogLevel::Info
    } else if verbose == 2 {
        LogLevel::Debug
    } else {
        LogLevel::Trace
    }
}

/// One disk to attach to the sandbox: its backing path and whether the guest
/// may write to it.
pub struct DiskSpec {
    pub path: String,
    pub read_only: bool,
}

/// The mathematical content of a `DiskSpec`.
pub struct DiskSpecV {
    pub path: Seq<char>,
    pub read_only: bool,
}

impl View for DiskSpec {
    type V = DiskSpecV;

    open spec fn view(&self) -> DiskSpecV {
        DiskSpecV { path: self.path@, read_only: self.read_only }
    }
}

/// Everything the external sandbox launcher needs beyond the kernel handle:
/// the boot parameter line and the ordered disks.
pub struct LaunchPlan {
    pub cmdline: String,
    pub rootfs: DiskSpec,
    pub extra_disks: Vec<DiskSpec>,
    pub vcpu_count: u8,
    pub mem_size_mib: u64,
}

/// The boot parameter line: quiet boot, never reboot on panic, the bootstrap
/// entry point, then positionally the archive device, the target device and
/// the filesystem name as the launcher's fixed disk ordering exposes them
/// inside the guest.
pub open spec fn boot_cmdline_spec(fs: Filesystem) -> Seq<char> {
    "quiet mitigations=off panic=-1 reboot=t init=/init RUST_BACKTRACE=1 -- /dev/vdb /dev/vdc "@
        + fs.name_spec()
}

/// Builds the boot parameter line for the detected target filesystem.
pub fn boot_command_line(fs: Filesystem) -> (r: String)
    ensures
        r@ == boot_cmdline_spec(fs),
{
    let mut s =
        "quiet mitigations=off panic=-1 reboot=t init=/init RUST_BACKTRACE=1 -- /dev/vdb /dev/vdc ".to_owned();
    let name = fs.name();
    s.append(name.as_str());
    s
}

/// The disk-ordering invariant of every launch: the sandbox's own root disk
/// is read-only, the archive disk comes first among the extra disks and is
/// read-only, and the target disk comes second and is the only writable one.
pub open spec fn disk_order_ok(p: LaunchPlan, archive: Seq<char>, target: Seq<char>) -> bool {
    &&& p.rootfs@.read_only
    &&& p.extra_disks@.len() == 2
    &&& p.extra_disks@[0]@.path == archive
    &&& p.extra_disks@[0]@.read_only
    &&& p.extra_disks@[1]@.path == target
    &&& !p.extra_disks@[1]@.read_only
}

/// Builds the launch configuration: boot parameter line, root disk, and the
/// two extra disks in their load-bearing order.
pub fn launch_plan(fs: Filesystem, root_fs: String, disk_in: String, disk_out: String) -> (p:
    LaunchPlan)
    ensures
        p.cmdline@ == boot_cmdline_spec(fs),
        p.rootfs@.path == root_fs@,
        disk_order_ok(p, disk_in@, disk_out@),
        p.vcpu_count == 1,
        p.mem_size_mib == 128,
{
    let cmdline = boot_command_line(fs);
    let mut extra_disks: Vec<DiskSpec> = Vec::new();
    extra_disks.push(DiskSpec { path: disk_in, read_only: true });
    extra_disks.push(DiskSpec { path: disk_out, read_only: false });
    LaunchPlan {
        cmdline,
        rootfs: DiskSpec { path: root_fs, read_only: true },
        extra_disks,
        vcpu_count: 1,
        mem_size_mib: 128,
    }
}

/// What, if anything, stops a run before launch.
#[derive(Clone, Copy, Debug, PartialEq, Eq, Structural)]
pub enum RunIssue {
    /// The target image was too small to probe for a superblock.
    ShortProbe,
    /// No supported filesystem magic was found on the target image.
    UndetectedFs,
    /// The archive length is not sector-aligned and repair is off.
    MisalignedInput,
}

/// The run admission rule, checked in this order: a full probe must have
/// been read, a filesystem must be detected, and a misaligned archive is
/// only admitted when repair is requested.
pub open spec fn run_issue(probe: Seq<u8>, in_len: u64, pad: bool) -> Option<RunIssue> {
    if probe.len() < PROBE_LEN {
        Some(RunIssue::ShortProbe)
    } else if identify_spec(probe) is None {
        Some(RunIssue::UndetectedFs)
    } else if in_len as nat % 512 != 0 && !pad {
        Some(RunIssue::MisalignedInput)
    } else {
        None
    }
}

/// The decisions a run needs before the sandbox can be launched: which
/// filesystem the guest must mount, and how many zero bytes to append to the
/// archive first (zero when it is already aligned).
pub struct RunPlan {
    pub fs: Filesystem,
    pub pad_bytes: u64,
}

/// Admits or rejects a run. Succeeds exactly when the probed target holds a
/// supported filesystem and the archive is sector-aligned or repair is on;
/// each rejection names the offending file. No sandbox is launched and no
/// file is touched unless a plan comes back.
pub fn plan_run(
    probe: &Vec<u8>,
    in_file: &str,
    out_fs: &str,
    in_len: u64,
    pad_input_with_zeroes: bool,
) -> (r: Result<RunPlan, AppError>)
    ensures
        r is Ok <==> run_issue(probe@, in_len, pad_input_with_zeroes) is None,
        r matches Ok(p) ==> Some(p.fs) == identify_spec(probe@) && p.pad_bytes == pad_len(
            in_len as nat,
        ),
        run_issue(probe@, in_len, pad_input_with_zeroes) == Some(RunIssue::ShortProbe)
            ==> (r matches Err(AppError::Unexpected(m)) && m@
                == "could not read a full superblock probe from the target image"@),
        run_issue(probe@, in_len, pad_input_with_zeroes) == Some(RunIssue::UndetectedFs)
            ==> (r matches Err(AppError::BadFs(p)) && p@ == out_fs@),
        run_issue(probe@, in_len, pad_input_with_zeroes) == Some(RunIssue::MisalignedInput)
            ==> (r matches Err(AppError::BadInputFile(p)) && p@ == in_file@),
{
    match identify_fs(probe) {
        Err(_) => Err(
            AppError::Unexpected(
                "could not read a full superblock probe from the target image".to_owned(),
            ),
        ),
        Ok(None) => Err(AppError::BadFs(out_fs.to_owned())),
        Ok(Some(fs)) => {
            let over = bytes_after_last_sector(in_len);
            if over > 0 && !pad_input_with_zeroes {
                Err(AppError::BadInputFile(in_file.to_owned()))
            } else {
                Ok(RunPlan { fs, pad_bytes: padding_needed(in_len) })
            }
        },
    }
}

} // verus!
