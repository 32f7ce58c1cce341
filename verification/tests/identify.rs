use fs_writer::fs_id::{identify_fs, Filesystem, IdentifyError, PROBE_LEN};

fn probe_buf() -> Vec<u8> {
    vec![0u8; PROBE_LEN]
}

#[test]
fn detects_xfs() {
    let mut b = probe_buf();
    b[0] = b'X';
    b[1] = b'F';
    b[2] = b'S';
    b[3] = b'B';
    assert_eq!(identify_fs(&b), Ok(Some(Filesystem::Xfs)));
}

#[test]
fn detects_ext4() {
    let mut b = probe_buf();
    b[0x438] = 0x53;
    b[0x439] = 0xEF;
    assert_eq!(identify_fs(&b), Ok(Some(Filesystem::Ext4)));
}

#[test]
fn detects_btrfs() {
    let mut b = probe_buf();
    let magic = b"_BHRfS_M";
    for (i, v) in magic.iter().enumerate() {
        b[0x10040 + i] = *v;
    }
    assert_eq!(identify_fs(&b), Ok(Some(Filesystem::Btrfs)));
}

#[test]
fn all_zero_buffer_detects_nothing() {
    let b = probe_buf();
    assert_eq!(identify_fs(&b), Ok(None));
}

#[test]
fn short_buffer_is_a_read_error() {
    let b = vec![0u8; PROBE_LEN - 1];
    assert_eq!(identify_fs(&b), Err(IdentifyError::ShortRead));
}

#[test]
fn xfs_magic_takes_precedence() {
    let mut b = probe_buf();
    b[0] = b'X';
    b[1] = b'F';
    b[2] = b'S';
    b[3] = b'B';
    b[0x438] = 0x53;
    b[0x439] = 0xEF;
    assert_eq!(identify_fs(&b), Ok(Some(Filesystem::Xfs)));
}

#[test]
fn magic_offset_matters() {
    // the right bytes at the wrong offset detect nothing
    let mut b = probe_buf();
    b[1] = b'X';
    b[2] = b'F';
    b[3] = b'S';
    b[4] = b'B';
    assert_eq!(identify_fs(&b), Ok(None));
}

#[test]
fn filesystem_names() {
    assert_eq!(Filesystem::Ext4.name(), "ext4");
    assert_eq!(Filesystem::Xfs.name(), "xfs");
    assert_eq!(Filesystem::Btrfs.name(), "btrfs");
}
