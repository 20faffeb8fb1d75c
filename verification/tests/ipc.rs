use bakpiarun::ipc::{frame_length, frame_message};

#[test]
fn frames_are_length_prefixed() {
    assert_eq!(frame_message(b"{}"), vec![0, 0, 0, 2, b'{', b'}']);
    assert_eq!(frame_message(b""), vec![0, 0, 0, 0]);
    let big = vec![b'a'; 0x0102];
    let f = frame_message(&big);
    assert_eq!(&f[0..4], &[0, 0, 1, 2]);
    assert_eq!(f.len(), 0x0106);
}

#[test]
fn frame_length_read_back() {
    assert_eq!(frame_length(&[0, 0, 1, 2]), 0x0102);
    assert_eq!(frame_length(&[1, 2, 3, 4]), 0x01020304);
    assert_eq!(frame_length(&[0xff, 0xff, 0xff, 0xff]), 0xffff_ffff);
    let f = frame_message(b"hello");
    assert_eq!(frame_length(&f[0..4]), 5);
}
