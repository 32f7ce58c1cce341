use fs_writer::padding::{bytes_after_last_sector, pad_file, pad_to_sector, padding_needed};

#[test]
fn aligned_content_is_left_unchanged() {
    let mut v = vec![7u8; 1024];
    let before = v.clone();
    pad_to_sector(&mut v);
    assert_eq!(v, before);
}

#[test]
fn empty_content_is_left_unchanged() {
    let mut v: Vec<u8> = Vec::new();
    pad_to_sector(&mut v);
    assert!(v.is_empty());
}

#[test]
fn pads_513_bytes_to_1024_with_zeroes() {
    let mut v = vec![1u8; 513];
    pad_to_sector(&mut v);
    assert_eq!(v.len(), 1024);
    assert!(v[..513].iter().all(|&b| b == 1));
    assert!(v[513..].iter().all(|&b| b == 0));
}

#[test]
fn overhang_of_sizes() {
    assert_eq!(bytes_after_last_sector(0), 0);
    assert_eq!(bytes_after_last_sector(512), 0);
    assert_eq!(bytes_after_last_sector(513), 1);
    assert_eq!(bytes_after_last_sector(1023), 511);
}

#[test]
fn padding_needed_of_sizes() {
    assert_eq!(padding_needed(0), 0);
    assert_eq!(padding_needed(512), 0);
    assert_eq!(padding_needed(513), 511);
    assert_eq!(padding_needed(1023), 1);
}

#[test]
fn pad_file_appends_exactly_the_requested_zeroes() {
    let mut v = vec![9u8; 3];
    pad_file(&mut v, 5);
    assert_eq!(v, vec![9, 9, 9, 0, 0, 0, 0, 0]);
}
