use moddedboost::checksum::{buffer_capacity, checksum, checksum_of_chunks, ChecksumEngine};

#[test]
fn checksum_of_empty_content() {
    assert_eq!(checksum(b""), "d41d8cd98f00b204e9800998ecf8427e");
}

#[test]
fn checksum_of_known_text() {
    assert_eq!(checksum(b"abc"), "900150983cd24fb0d6963f7d28e17f72");
    assert_eq!(
        checksum(b"abcdefghijklmnopqrstuvwxyz"),
        "c3fcd3d76192e4007dfb496cca67e13b"
    );
}

#[test]
fn chunking_does_not_change_the_checksum() {
    let whole = checksum(b"message digest");
    assert_eq!(whole, "f96b697d7cb7938d525a2f31aaf161d0");
    let chunks = vec![b"mess".to_vec(), Vec::new(), b"age dig".to_vec(), b"est".to_vec()];
    assert_eq!(checksum_of_chunks(&chunks), whole);
    let mut engine = ChecksumEngine::new();
    engine.update(b"message ");
    engine.update(b"digest");
    assert_eq!(engine.finish(), whole);
}

#[test]
fn buffer_capacity_is_the_length_capped_at_a_million() {
    assert_eq!(buffer_capacity(0), 0);
    assert_eq!(buffer_capacity(999_999), 999_999);
    assert_eq!(buffer_capacity(1_000_000), 1_000_000);
    assert_eq!(buffer_capacity(1_000_001), 1_000_000);
    assert_eq!(buffer_capacity(u64::MAX), 1_000_000);
}
