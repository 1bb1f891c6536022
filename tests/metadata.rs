use exif_greeter::ifd::{append_decimal, ifd_text};
use exif_greeter::metadata::{
    extract_batch, extract_lines, format_field, format_fields, ExtractError, FieldRecord,
};

/// A little-endian TIFF header whose first directory starts at byte 8.
fn tiff_header() -> Vec<u8> {
    vec![b'I', b'I', 0x2a, 0x00, 0x08, 0x00, 0x00, 0x00]
}

/// A directory holding one ImageWidth (SHORT) entry, then `next`.
fn width_ifd(width: u8, next: u8) -> Vec<u8> {
    vec![
        0x01, 0x00, // one entry
        0x00, 0x01, 0x03, 0x00, 0x01, 0x00, 0x00, 0x00, width, 0x00, 0x00, 0x00,
        next, 0x00, 0x00, 0x00,
    ]
}

fn two_directory_tiff() -> Vec<u8> {
    let mut b = tiff_header();
    b.extend(width_ifd(100, 26));
    b.extend(width_ifd(50, 0));
    b
}

fn record(tag: &str, ifd_num: u16, value: &str) -> FieldRecord {
    FieldRecord { tag: tag.to_string(), ifd_num, value: value.to_string() }
}

#[test]
fn ifd_labels() {
    assert_eq!(ifd_text(0), "primary");
    assert_eq!(ifd_text(1), "thumbnail");
    assert_eq!(ifd_text(2), "IFD2");
    assert_eq!(ifd_text(10), "IFD10");
    assert_eq!(ifd_text(65535), "IFD65535");
}

#[test]
fn decimal_appends_after_existing_text() {
    let mut s = "n=".to_string();
    append_decimal(&mut s, 907);
    assert_eq!(s, "n=907");
}

#[test]
fn field_line_layout() {
    let f = record("XResolution", 0, "72 pixels per inch");
    assert_eq!(format_field(&f), "XResolution primary 72 pixels per inch");
    let g = record("ImageWidth", 3, "8");
    assert_eq!(format_field(&g), "ImageWidth IFD3 8");
}

#[test]
fn lines_keep_field_order() {
    let fs = vec![record("B", 1, "2"), record("A", 0, "1")];
    assert_eq!(format_fields(&fs), vec!["B thumbnail 2".to_string(), "A primary 1".to_string()]);
    assert!(format_fields(&Vec::new()).is_empty());
}

#[test]
fn tiff_fields_become_lines() {
    let lines = extract_lines(&two_directory_tiff()).unwrap();
    assert_eq!(
        lines,
        vec!["ImageWidth primary 100 pixels".to_string(), "ImageWidth thumbnail 50 pixels".to_string()]
    );
}

#[test]
fn container_without_fields_gives_no_lines() {
    let mut b = tiff_header();
    b.extend(vec![0x00, 0x00, 0x00, 0x00, 0x00, 0x00]);
    assert_eq!(extract_lines(&b), Ok(Vec::new()));
}

#[test]
fn unknown_format_is_malformed() {
    assert_eq!(extract_lines(b"not an image at all"), Err(ExtractError::MalformedContainer));
    assert_eq!(extract_lines(&[]), Err(ExtractError::MalformedContainer));
}

#[test]
fn truncated_tiff_is_malformed() {
    let mut b = tiff_header();
    b.extend(vec![0x01, 0x00, 0x00]);
    assert_eq!(extract_lines(&b), Err(ExtractError::MalformedContainer));
}

#[test]
fn extracting_twice_gives_same_lines() {
    let b = two_directory_tiff();
    assert_eq!(extract_lines(&b), extract_lines(&b));
}

#[test]
fn missing_file_fails_alone_in_batch() {
    let files = vec![None, Some(two_directory_tiff()), Some(b"junk".to_vec())];
    let r = extract_batch(&files);
    assert_eq!(r.len(), 3);
    assert_eq!(r[0], Err(ExtractError::PathNotFound));
    assert_eq!(r[1].as_ref().unwrap().len(), 2);
    assert_eq!(r[2], Err(ExtractError::MalformedContainer));
}
