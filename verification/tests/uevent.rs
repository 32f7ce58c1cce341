use fs_writer::guest::{makedev, S_IFBLK};
use fs_writer::uevent::{blockdev_requests, parse_uevent};

#[test]
fn parses_a_device_record() {
    let r = parse_uevent("MAJOR=254\nMINOR=0\nDEVNAME=vda\nDEVTYPE=disk\n").unwrap();
    assert_eq!(r.0, "vda");
    assert_eq!(r.1, 254);
    assert_eq!(r.2, 0);
}

#[test]
fn absent_keys_keep_their_defaults() {
    let r = parse_uevent("DEVTYPE=disk\n").unwrap();
    assert_eq!(r.0, "");
    assert_eq!(r.1, 0);
    assert_eq!(r.2, 0);
}

#[test]
fn later_lines_override_earlier_ones() {
    let r = parse_uevent("DEVNAME=vda\nMAJOR=1\nDEVNAME=vdb\nMAJOR=2").unwrap();
    assert_eq!(r.0, "vdb");
    assert_eq!(r.1, 2);
}

#[test]
fn lines_without_one_equals_sign_are_skipped() {
    let r = parse_uevent("MAJOR\nMAJOR=1=2\nMINOR=7").unwrap();
    assert_eq!(r.1, 0);
    assert_eq!(r.2, 7);
}

#[test]
fn a_non_numeric_major_rejects_the_record() {
    assert!(parse_uevent("MAJOR=zz\nDEVNAME=vda").is_none());
    assert!(parse_uevent("MINOR=\nDEVNAME=vda").is_none());
}

#[test]
fn an_oversized_number_rejects_the_record() {
    assert!(parse_uevent("MAJOR=99999999999999999999999999999999").is_none());
}

#[test]
fn plans_block_device_nodes() {
    let uevents: Vec<String> = vec![
        "MAJOR=254\nMINOR=0\nDEVNAME=vda\n".to_string(),
        "MAJOR=254\nMINOR=1\nDEVNAME=vdb\n".to_string(),
    ];
    let nodes = blockdev_requests(&uevents).unwrap();
    assert_eq!(nodes.len(), 2);
    assert_eq!(nodes[0].path, "/dev/vda");
    assert_eq!(nodes[0].mode, S_IFBLK | 666);
    assert_eq!(nodes[0].dev, makedev(254, 0));
    assert_eq!(nodes[1].path, "/dev/vdb");
    assert_eq!(nodes[1].dev, makedev(254, 1));
}

#[test]
fn one_malformed_record_rejects_the_plan() {
    let uevents: Vec<String> = vec![
        "MAJOR=254\nMINOR=0\nDEVNAME=vda\n".to_string(),
        "MAJOR=oops\n".to_string(),
    ];
    assert!(blockdev_requests(&uevents).is_none());
}
