//! Filesystem identification: classify a raw block-device image by the
//! superblock magic found at a fixed, type-specific offset.

use vstd::prelude::*;

verus! {

/// The filesystem types the sandbox knows how to mount on the target disk,
/// as classified from the superblock magic of the raw image.
#[derive(Clone, Copy, Debug, PartialEq, Eq, Structural)]
pub enum Filesystem {
    Ext4,
    Xfs,
    Btrfs,
}

/// Number of bytes of the device that classification inspects: 64 KiB plus
/// 256 bytes, enough to cover the deepest known superblock magic.
pub const PROBE_LEN: usize = 0x10100;

impl Filesystem {
    /// The filesystem's conventional name, as the guest's mount step and the
    /// boot parameter line spell it.
    pub open spec fn name_spec(self) -> Seq<char> {
        match self {
            Filesystem::Ext4 => "ext4"@,
            Filesystem::Xfs => "xfs"@,
            Filesystem::Btrfs => "btrfs"@,
        }
    }

    /// Returns the conventional name of the filesystem.
    pub fn name(&self) -> (r: String)
        ensures
            r@ == self.name_spec(),
    {
        match self {
            Filesystem::Ext4 => "ext4".to_owned(),
            Filesystem::Xfs => "xfs".to_owned(),
            Filesystem::Btrfs => "btrfs".to_owned(),
        }
    }
}

/// An XFS superblock sits at offset 0 and opens with the ASCII magic "XFSB".
pub open spec fn has_xfs_magic(b: Seq<u8>) -> bool {
    &&& b.len() >= 4
    &&& b[0] == 0x58u8
    &&& b[1] == 0x46u8
    &&& b[2] == 0x53u8
    &&& b[3] == 0x42u8
}

/// The ext2/3/4 superblock sits at offset 0x400; its two-byte magic
/// {0x53, 0xEF} is at offset 0x38 within it.
pub open spec fn has_ext4_magic(b: Seq<u8>) -> bool {
    &&& b.len() >= 0x43A
    &&& b[0x438] == 0x53u8
    &&& b[0x439] == 0xEFu8
}

/// The btrfs superblock sits at offset 0x10000; its eight-byte ASCII magic
/// "_BHRfS_M" is at offset 0x40 within it.
pub open spec fn has_btrfs_magic(b: Seq<u8>) -> bool {
    &&& b.len() >= 0x10048
    &&& b[0x10040] == 0x5Fu8
    &&& b[0x10041] == 0x42u8
    &&& b[0x10042] == 0x48u8
    &&& b[0x10043] == 0x52u8
    &&& b[0x10044] == 0x66u8
    &&& b[0x10045] == 0x53u8
    &&& b[0x10046] == 0x5Fu8
    &&& b[0x10047] == 0x4Du8
}

/// Classification of a probe buffer: the three magic checks are tried in a
/// fixed order; a buffer matching none of them is "none detected".
pub open spec fn identify_spec(b: Seq<u8>) -> Option<Filesystem> {
    if has_xfs_magic(b) {
        Some(Filesystem::Xfs)
    } else if has_ext4_magic(b) {
        Some(Filesystem::Ext4)
    } else if has_btrfs_magic(b) {
        Some(Filesystem::Btrfs)
    } else {
        None
    }
}

/// A probe buffer shorter than `PROBE_LEN` cannot be classified: a device too
/// small to hold a superblock cannot be any supported filesystem, and is
/// reported as a read error rather than as "none detected".
#[derive(Clone, Copy, Debug, PartialEq, Eq, Structural)]
pub enum IdentifyError {
    ShortRead,
}

/// Classifies the first `PROBE_LEN` bytes of a block device.
///
/// The buffer is never mutated; only the bytes needed to cover the
/// deepest-known superblock location are inspected.
pub fn identify_fs(buf: &Vec<u8>) -> (r: Result<Option<Filesystem>, IdentifyError>)
    ensures
        buf@.len() < PROBE_LEN ==> r == Result::<Option<Filesystem>, IdentifyError>::Err(
            IdentifyError::ShortRead,
        ),
        buf@.len() >= PROBE_LEN ==> r == Result::<Option<Filesystem>, IdentifyError>::Ok(
            identify_spec(buf@),
        ),
{
    if buf.len() < PROBE_LEN {
        return Err(IdentifyError::ShortRead);
    }
    let is_xfs = buf[0] == 0x58 && buf[1] == 0x46 && buf[2] == 0x53 && buf[3] == 0x42;
    let is_ext4 = buf[0x438] == 0x53 && buf[0x439] == 0xEF;
    let is_btrfs = buf[0x10040] == 0x5F && buf[0x10041] == 0x42 && buf[0x10042] == 0x48
        && buf[0x10043] == 0x52 && buf[0x10044] == 0x66 && buf[0x10045] == 0x53
        && buf[0x10046] == 0x5F && buf[0x10047] == 0x4D;
    if is_xfs {
        Ok(Some(Filesystem::Xfs))
    } else if is_ext4 {
        Ok(Some(Filesystem::Ext4))
    } else if is_btrfs {
        Ok(Some(Filesystem::Btrfs))
    } else {
        Ok(None)
    }
}

} // verus!
