//! Sector padding: the sandbox's block-device layer only transfers whole
//! 512-byte sectors, so the archive file's length must be a multiple of the
//! sector size before launch. An unaligned archive is either rejected or,
//! when repair is requested, extended in place with zero bytes.

use vstd::prelude::*;

verus! {

/// The sandbox block size: every attached disk must be a whole number of
/// these.
pub const SECTOR_SIZE: u64 = 512;

/// How many bytes a content of length `len` sticks out past its last full
/// sector boundary.
pub open spec fn overhang(len: nat) -> nat {
    len % 512
}

/// How many zero bytes must be appended to reach the next sector boundary:
/// zero when the length is already aligned.
pub open spec fn pad_len(len: nat) -> nat {
    if len % 512 == 0 {
        0
    } else {
        (512 - len % 512) as nat
    }
}

/// A content extended with exactly the zero bytes that sector alignment
/// requires.
pub open spec fn padded(content: Seq<u8>) -> Seq<u8> {
    content + Seq::new(pad_len(content.len()), |i: int| 0u8)
}

/// Returns how many bytes of the archive lie past its last full sector,
/// given the archive's size in bytes.
pub fn bytes_after_last_sector(disk_size: u64) -> (r: u64)
    ensures
        r == overhang(disk_size as nat),
        r < SECTOR_SIZE,
{
    disk_size % SECTOR_SIZE
}

/// Returns how many zero bytes must be appended to an archive of the given
/// size so that it ends on a sector boundary.
pub fn padding_needed(disk_size: u64) -> (r: u64)
    ensures
        r == pad_len(disk_size as nat),
        r < SECTOR_SIZE,
        (disk_size + r) % (SECTOR_SIZE as int) == 0,
{
    let over = disk_size % SECTOR_SIZE;
    if over == 0 {
        0
    } else {
        SECTOR_SIZE - over
    }
}

/// Appends `bytes_to_pad` zero bytes to the content, leaving everything
/// before them unchanged.
pub fn pad_file(content: &mut Vec<u8>, bytes_to_pad: u64)
    requires
        bytes_to_pad < SECTOR_SIZE,
        old(content)@.len() + bytes_to_pad <= usize::MAX,
    ensures
        final(content)@ == old(content)@ + Seq::new(bytes_to_pad as nat, |i: int| 0u8),
{
    let mut appended: u64 = 0;
    while appended < bytes_to_pad
        invariant
            appended <= bytes_to_pad,
            bytes_to_pad < SECTOR_SIZE,
            old(content)@.len() + bytes_to_pad <= usize::MAX,
            content@ == old(content)@ + Seq::new(appended as nat, |i: int| 0u8),
        decreases bytes_to_pad - appended,
    {
        content.push(0);
        appended = appended + 1;
        proof {
            assert(content@ =~= old(content)@ + Seq::new(appended as nat, |i: int| 0u8));
        }
    }
    proof {
        assert(content@ =~= old(content)@ + Seq::new(bytes_to_pad as nat, |i: int| 0u8));
    }
}

/// Extends the content with zero bytes up to the next sector boundary; a
/// no-op when the length is already a multiple of the sector size.
pub fn pad_to_sector(content: &mut Vec<u8>)
    requires
        old(content)@.len() + SECTOR_SIZE <= usize::MAX,
    ensures
        final(content)@ == padded(old(content)@),
{
    let over = bytes_after_last_sector(content.len() as u64);
    if over > 0 {
        pad_file(content, SECTOR_SIZE - over);
    }
    proof {
        assert(content@ =~= padded(old(content)@));
    }
}

/// Padding idempotence: a content whose length is already a multiple of the
/// sector size is left byte-for-byte unchanged by repair.
pub proof fn lemma_pad_noop_when_aligned(content: Seq<u8>)
    requires
        content.len() % 512 == 0,
    ensures
        padded(content) == content,
{
    assert(padded(content) =~= content);
}

/// The repaired content always ends on a sector boundary, grows by less than
/// one sector, keeps its original bytes as a prefix, and every appended byte
/// is zero.
pub proof fn lemma_padded_shape(content: Seq<u8>)
    ensures
        padded(content).len() % 512 == 0,
        content.len() <= padded(content).len() < content.len() + 512,
        padded(content).subrange(0, content.len() as int) == content,
        forall|i: int|
            content.len() <= i < padded(content).len() ==> padded(content)[i] == 0u8,
{
    assert(padded(content).subrange(0, content.len() as int) =~= content);
}

} // verus!
