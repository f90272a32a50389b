use ocr_worker::text::{same_bytes, same_text};

#[test]
fn equal_byte_strings_are_the_same() {
    assert!(same_bytes(b"", b""));
    assert!(same_bytes(b"png", b"png"));
    assert!(same_bytes(&[0u8, 255, 7], &[0u8, 255, 7]));
}

#[test]
fn different_byte_strings_are_not_the_same() {
    assert!(!same_bytes(b"png", b"pn"));
    assert!(!same_bytes(b"pn", b"png"));
    assert!(!same_bytes(b"png", b"pnG"));
    assert!(!same_bytes(b"png", b"jpg"));
    assert!(!same_bytes(b"", b"a"));
}

#[test]
fn texts_are_compared_by_their_characters() {
    assert!(same_text("file_to_text", "file_to_text"));
    assert!(!same_text("file_to_text", "file_to_texts"));
    assert!(!same_text("file_to_text", "File_to_text"));
    assert!(same_text("zażółć", "zażółć"));
    assert!(!same_text("zażółć", "zazolc"));
    assert!(same_text("", ""));
}
