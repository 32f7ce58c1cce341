use fs_writer::console::LineBuffer;

#[test]
fn buffers_until_a_newline() {
    let mut lb = LineBuffer::new();
    let out = lb.push_bytes(&b"hel".to_vec());
    assert!(out.is_empty());
    let out = lb.push_bytes(&b"lo\nwor".to_vec());
    assert_eq!(out, vec![b"hello".to_vec()]);
    let out = lb.push_bytes(&b"ld\n".to_vec());
    assert_eq!(out, vec![b"world".to_vec()]);
}

#[test]
fn one_record_per_completed_line() {
    let mut lb = LineBuffer::new();
    let out = lb.push_bytes(&b"a\nb\nc".to_vec());
    assert_eq!(out, vec![b"a".to_vec(), b"b".to_vec()]);
    let out = lb.push_bytes(&b"\n".to_vec());
    assert_eq!(out, vec![b"c".to_vec()]);
}

#[test]
fn empty_lines_are_records_too() {
    let mut lb = LineBuffer::new();
    let out = lb.push_bytes(&b"\n\n".to_vec());
    assert_eq!(out, vec![Vec::new(), Vec::new()]);
}

#[test]
fn one_byte_at_a_time() {
    // the serial device writes and flushes every character separately
    let mut lb = LineBuffer::new();
    let mut all: Vec<Vec<u8>> = Vec::new();
    for b in b"ok\ndone\n" {
        all.extend(lb.push_bytes(&vec![*b]));
    }
    assert_eq!(all, vec![b"ok".to_vec(), b"done".to_vec()]);
}
