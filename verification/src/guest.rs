//! Guest bootstrap planning: the sandbox's only process must rebuild a
//! minimal environment from nothing before it can mount the target disk and
//! extract the archive. Everything it decides — which pseudo-filesystems to
//! mount, which device nodes to create, which device to mount where, and how
//! the run proceeds through its phases — is computed and verified here; the
//! privileged operations themselves (mount, mknod, sync) are performed
//! outside the library, one request at a time.

use vstd::prelude::*;
use vstd::string::StringExecFns;

verus! {

/// Mount flag: do not update file access times.
pub const MNT_NOATIME: u64 = 0x0400;

/// Mount flag: do not update directory access times.
pub const MNT_NODIRATIME: u64 = 0x0800;

/// File mode bits marking a character-special device node.
pub const S_IFCHR: u32 = 0o20000;

/// File mode bits marking a block-special device node.
pub const S_IFBLK: u32 = 0o60000;

/// The directory the target device is mounted at for extraction.
pub open spec fn extraction_dir() -> Seq<char> {
    "/destination"@
}

/// A device number composed from its major and minor parts, laid out as the
/// kernel expects: minor in bits 0..8 and 20..32, major in bits 8..20 and
/// 32..64.
pub open spec fn makedev_spec(major: u32, minor: u32) -> u64 {
    (((major & 0xfffff000) as u64) << 32) | (((major & 0x00000fff) as u64) << 8) | (((minor
        & 0xffffff00) as u64) << 12) | ((minor & 0x000000ff) as u64)
}

/// Composes a device number from its major and minor parts.
pub fn makedev(major: u32, minor: u32) -> (r: u64)
    ensures
        r == makedev_spec(major, minor),
{
    (((major & 0xfffff000) as u64) << 32) | (((major & 0x00000fff) as u64) << 8) | (((minor
        & 0xffffff00) as u64) << 12) | ((minor & 0x000000ff) as u64)
}

/// One mount for the privileged-operations layer to perform: a resolved
/// source ("none" where the filesystem needs no backing device), the mount
/// point, the filesystem type, and the mount flags.
pub struct MountRequest {
    pub source: String,
    pub target: String,
    pub fstype: String,
    pub flags: u64,
}

/// The mathematical content of a `MountRequest`.
pub struct MountRequestV {
    pub source: Seq<char>,
    pub target: Seq<char>,
    pub fstype: Seq<char>,
    pub flags: u64,
}

impl View for MountRequest {
    type V = MountRequestV;

    open spec fn view(&self) -> MountRequestV {
        MountRequestV {
            source: self.source@,
            target: self.target@,
            fstype: self.fstype@,
            flags: self.flags,
        }
    }
}

impl DeepView for MountRequest {
    type V = MountRequestV;

    open spec fn deep_view(&self) -> MountRequestV {
        self@
    }
}

/// One device node for the privileged-operations layer to create.
pub struct MknodRequest {
    pub path: String,
    pub mode: u32,
    pub dev: u64,
}

/// The mathematical content of a `MknodRequest`.
pub struct MknodRequestV {
    pub path: Seq<char>,
    pub mode: u32,
    pub dev: u64,
}

impl View for MknodRequest {
    type V = MknodRequestV;

    open spec fn view(&self) -> MknodRequestV {
        MknodRequestV { path: self.path@, mode: self.mode, dev: self.dev }
    }
}

impl DeepView for MknodRequest {
    type V = MknodRequestV;

    open spec fn deep_view(&self) -> MknodRequestV {
        self@
    }
}

/// Builds a mount request: a missing source resolves to the conventional
/// "none", and every mount of this run disables access-time updates.
pub fn mount_request(source: Option<String>, target: String, fstype: String) -> (r: MountRequest)
    ensures
        r@.target == target@,
        r@.fstype == fstype@,
        r@.flags == MNT_NOATIME | MNT_NODIRATIME,
        source matches Some(s) ==> r@.source == s@,
        source is None ==> r@.source == "none"@,
{
    let src = match source {
        Some(s) => s,
        None => "none".to_owned(),
    };
    MountRequest { source: src, target, fstype, flags: MNT_NOATIME | MNT_NODIRATIME }
}

/// The request that mounts a kernel pseudo-filesystem: no backing device.
pub open spec fn pseudo_mount_view(target: Seq<char>, fstype: Seq<char>) -> MountRequestV {
    MountRequestV {
        source: "none"@,
        target,
        fstype,
        flags: (MNT_NOATIME | MNT_NODIRATIME) as u64,
    }
}

/// Builds the mount request for a pseudo-filesystem, which has no backing
/// device.
pub fn mount_pseudo(target: &str, fstype: &str) -> (r: MountRequest)
    ensures
        r@ == pseudo_mount_view(target@, fstype@),
{
    mount_request(None, target.to_owned(), fstype.to_owned())
}

/// The fixed bit mask ORed into every device node's mode.
pub const NODE_MODE_BITS: u32 = 666;

/// Builds a device-node request; every node carries the bootstrap's fixed
/// mode bits on top of its file-type bits.
pub fn mknod_request(path: String, major: u32, minor: u32, mode: u32) -> (r: MknodRequest)
    ensures
        r@.path == path@,
        r@.mode == mode | NODE_MODE_BITS,
        r@.dev == makedev_spec(major, minor),
{
    let dev = makedev(major, minor);
    MknodRequest { path, mode: mode | NODE_MODE_BITS, dev }
}

/// The pseudo-filesystem mounts the bootstrap performs before anything else,
/// in order: process information at /proc, kernel objects at /sys, and a
/// memory filesystem for device nodes at /dev.
pub open spec fn pseudo_mount_views() -> Seq<MountRequestV> {
    seq![
        pseudo_mount_view("/proc"@, "proc"@),
        pseudo_mount_view("/sys"@, "sysfs"@),
        pseudo_mount_view("/dev"@, "tmpfs"@),
    ]
}

/// The null device node the bootstrap creates once /dev is mounted.
pub open spec fn null_node_view() -> MknodRequestV {
    MknodRequestV { path: "/dev/null"@, mode: S_IFCHR | NODE_MODE_BITS, dev: makedev_spec(1, 3) }
}

/// Plans the environment setup: the three pseudo-filesystem mounts in order,
/// then the null device node.
pub fn setup_environment_plan() -> (r: (Vec<MountRequest>, MknodRequest))
    ensures
        r.0.deep_view() == pseudo_mount_views(),
        r.1@ == null_node_view(),
{
    let mut mounts: Vec<MountRequest> = Vec::new();
    mounts.push(mount_pseudo("/proc", "proc"));
    mounts.push(mount_pseudo("/sys", "sysfs"));
    mounts.push(mount_pseudo("/dev", "tmpfs"));
    proof {
        assert(mounts.deep_view() =~= pseudo_mount_views());
    }
    let null_node = mknod_request("/dev/null".to_owned(), 1, 3, S_IFCHR);
    (mounts, null_node)
}

/// The boot parameters the guest receives, positionally: the archive device,
/// the target device, and the filesystem type to mount it as.
pub struct BootArgs {
    pub archive_dev: String,
    pub target_dev: String,
    pub fstype: String,
}

/// The mathematical content of `BootArgs`.
pub struct BootArgsV {
    pub archive_dev: Seq<char>,
    pub target_dev: Seq<char>,
    pub fstype: Seq<char>,
}

impl View for BootArgs {
    type V = BootArgsV;

    open spec fn view(&self) -> BootArgsV {
        BootArgsV {
            archive_dev: self.archive_dev@,
            target_dev: self.target_dev@,
            fstype: self.fstype@,
        }
    }
}

/// Reads the three positional boot parameters out of the process argument
/// list (the first entry being the program itself). Missing parameters are
/// unrecoverable inside a guest with no shell, so the caller must abort.
pub fn parse_boot_args(args: &Vec<String>) -> (r: Option<BootArgs>)
    ensures
        r is Some <==> args@.len() >= 4,
        r matches Some(b) ==> b@.archive_dev == args@[1]@ && b@.target_dev == args@[2]@
            && b@.fstype == args@[3]@,
{
    if args.len() < 4 {
        return None;
    }
    Some(
        BootArgs {
            archive_dev: args[1].clone(),
            target_dev: args[2].clone(),
            fstype: args[3].clone(),
        },
    )
}

/// The one data-bearing mount of a run: the target device at the fixed
/// extraction directory, with the filesystem type from the boot parameters.
pub open spec fn target_mount_view(b: BootArgsV) -> MountRequestV {
    MountRequestV {
        source: b.target_dev,
        target: extraction_dir(),
        fstype: b.fstype,
        flags: (MNT_NOATIME | MNT_NODIRATIME) as u64,
    }
}

/// Builds the mount request for the target device.
pub fn mount_target_request(b: &BootArgs) -> (r: MountRequest)
    ensures
        r@ == target_mount_view(b@),
{
    mount_request(Some(b.target_dev.clone()), "/destination".to_owned(), b.fstype.clone())
}

/// Every mount the bootstrap plans over a whole run, in order.
pub open spec fn guest_mount_views(b: BootArgsV) -> Seq<MountRequestV> {
    pseudo_mount_views().push(target_mount_view(b))
}

/// Disk-ordering law, guest half: every mount the bootstrap plans is backed
/// either by no device or by the target device, so the archive device is
/// never mounted — in particular never mounted writably.
pub proof fn lemma_guest_never_mounts_archive(b: BootArgsV)
    requires
        b.archive_dev != b.target_dev,
        b.archive_dev != "none"@,
    ensures
        forall|i: int|
            0 <= i < guest_mount_views(b).len() ==> #[trigger] guest_mount_views(b)[i].source
                != b.archive_dev,
{
    assert forall|i: int| 0 <= i < guest_mount_views(b).len() implies #[trigger] guest_mount_views(
        b,
    )[i].source != b.archive_dev by {
        if i < 3 {
            assert(guest_mount_views(b)[i].source == "none"@);
        } else {
            assert(guest_mount_views(b)[i].source == b.target_dev);
        }
    }
}

/// The phases of the bootstrap's single pass, plus the two terminal states.
#[derive(Clone, Copy, Debug, PartialEq, Eq, Structural)]
pub enum GuestPhase {
    /// Parse the positional boot parameters.
    Init,
    /// Mount the pseudo-filesystems and create the null node.
    MountPseudo,
    /// Scan the kernel-object tree and create block device nodes.
    EnumerateDevices,
    /// Mount the target device at the extraction directory.
    MountTarget,
    /// Decompress and extract the archive onto the mount point.
    Extract,
    /// Flush all pending writes to stable storage.
    Sync,
    /// The process exits; the launcher tears the sandbox down.
    Done,
    /// An early phase failed; nothing else can work without it.
    Aborted,
}

/// The transition rule of the bootstrap. Failures in the three environment
/// phases abort the run outright: nothing can work without them. A failed
/// target mount skips extraction but still reaches the flush, so the sandbox
/// exits cleanly instead of hanging; extraction errors are reported by the
/// caller but never stop the flush.
pub open spec fn guest_step_spec(phase: GuestPhase, ok: bool) -> GuestPhase {
    match phase {
        GuestPhase::Init => if ok {
            GuestPhase::MountPseudo
        } else {
            GuestPhase::Aborted
        },
        GuestPhase::MountPseudo => if ok {
            GuestPhase::EnumerateDevices
        } else {
            GuestPhase::Aborted
        },
        GuestPhase::EnumerateDevices => if ok {
            GuestPhase::MountTarget
        } else {
            GuestPhase::Aborted
        },
        GuestPhase::MountTarget => if ok {
            GuestPhase::Extract
        } else {
            GuestPhase::Sync
        },
        GuestPhase::Extract => GuestPhase::Sync,
        GuestPhase::Sync => GuestPhase::Done,
        GuestPhase::Done => GuestPhase::Done,
        GuestPhase::Aborted => GuestPhase::Aborted,
    }
}

/// Advances the bootstrap by one phase, given whether the phase's work
/// succeeded.
pub fn guest_step(phase: GuestPhase, ok: bool) -> (r: GuestPhase)
    ensures
        r == guest_step_spec(phase, ok),
{
    match phase {
        GuestPhase::Init => if ok {
            GuestPhase::MountPseudo
        } else {
            GuestPhase::Aborted
        },
        GuestPhase::MountPseudo => if ok {
            GuestPhase::EnumerateDevices
        } else {
            GuestPhase::Aborted
        },
        GuestPhase::EnumerateDevices => if ok {
            GuestPhase::MountTarget
        } else {
            GuestPhase::Aborted
        },
        GuestPhase::MountTarget => if ok {
            GuestPhase::Extract
        } else {
            GuestPhase::Sync
        },
        GuestPhase::Extract => GuestPhase::Sync,
        GuestPhase::Sync => GuestPhase::Done,
        GuestPhase::Done => GuestPhase::Done,
        GuestPhase::Aborted => GuestPhase::Aborted,
    }
}

/// How much of the single pass is still ahead of a phase.
pub open spec fn phase_rank(p: GuestPhase) -> nat {
    match p {
        GuestPhase::Init => 6,
        GuestPhase::MountPseudo => 5,
        GuestPhase::EnumerateDevices => 4,
        GuestPhase::MountTarget => 3,
        GuestPhase::Extract => 2,
        GuestPhase::Sync => 1,
        GuestPhase::Done => 0,
        GuestPhase::Aborted => 0,
    }
}

/// The bootstrap is single-shot: every step from a non-terminal phase
/// strictly shrinks the remaining work, whatever the phase's outcome, so a
/// run always reaches Done or Aborted and no phase is ever retried.
pub proof fn lemma_guest_progress(phase: GuestPhase, ok: bool)
    requires
        phase != GuestPhase::Done,
        phase != GuestPhase::Aborted,
    ensures
        phase_rank(guest_step_spec(phase, ok)) < phase_rank(phase),
{
}

} // verus!
