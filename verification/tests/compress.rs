use icepick::utils::compress::{Compress, Decompress, Zstd};

#[test]
fn test_compression() {
    let to_compress = "hello, world!";

    let expected_compressed: Vec<u8> = vec![40, 181, 47, 253, 0, 88, 105, 0, 0, 104, 101, 108, 108, 111, 44, 32, 119, 111, 114, 108, 100, 33];

    let compressed = to_compress.compress().unwrap();

    let decompressed = compressed.decompress().unwrap();

    assert_eq!(expected_compressed, compressed);
    assert_eq!(to_compress, decompressed.as_str());
}

#[test]
fn frames_start_with_the_zstd_magic_number() {
    let frame = Zstd::compress("hai").unwrap();
    assert_eq!(&frame[0..4], &[40, 181, 47, 253]);
}

#[test]
fn compress_then_decompress_gives_back_unicode_text() {
    let text = String::from("naïve café — ünïcødé ✓");
    let frame = text.compress().unwrap();
    assert_ne!(frame.as_slice(), text.as_bytes());
    let back = Zstd::decompress(frame.as_slice()).unwrap();
    assert_eq!(back, text);
}

#[test]
fn compress_of_empty_text_round_trips() {
    let frame = Zstd::compress("").unwrap();
    assert_eq!(&frame[0..4], &[40, 181, 47, 253]);
    assert_eq!(frame.as_slice().decompress().unwrap(), "");
}

#[test]
fn decompress_of_garbage_is_an_io_error() {
    let garbage: Vec<u8> = vec![1, 2, 3, 4, 5];
    match garbage.decompress() {
        Err(icepick::utils::errors::IcepickError::IoError(_)) => {}
        other => panic!("expected an I/O error, got {:?}", other),
    }
}

#[test]
fn decompress_replaces_invalid_utf8() {
    let bytes: Vec<u8> = vec![104, 105, 0xff, 33];
    let frame = zstd::encode_all(bytes.as_slice(), 3).unwrap();
    assert_eq!(frame.decompress().unwrap(), "hi\u{FFFD}!");
}
