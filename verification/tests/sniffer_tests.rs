use flight_ingest::sniffer::classify;

#[test]
fn classify_empty_body_defaults() {
    let body: Vec<u8> = Vec::new();
    let info = classify(&body);
    assert_eq!(info.size, 0);
    assert!(!info.is_file_format);
    assert!(!info.has_length_prefix);
    assert_eq!(info.message_length, 0);
    assert!(info.leading_bytes.is_empty());
    assert!(info.trailing_bytes.is_empty());
}

#[test]
fn classify_file_format_marker_both_ends() {
    let body: Vec<u8> = b"ARROW1ARROW1".to_vec();
    let info = classify(&body);
    assert_eq!(info.size, 12);
    assert!(info.is_file_format);

    let mut long_body: Vec<u8> = b"ARROW1".to_vec();
    long_body.extend(vec![0u8; 20]);
    long_body.extend(b"ARROW1".to_vec());
    let info = classify(&long_body);
    assert!(info.is_file_format);
}

#[test]
fn classify_short_body_is_never_file_format() {
    // 11 bytes: even with marker-like content the body is too short.
    let body: Vec<u8> = b"ARROW1ARROW".to_vec();
    let info = classify(&body);
    assert!(!info.is_file_format);
}

#[test]
fn classify_wrong_trailer_is_not_file_format() {
    let mut body: Vec<u8> = b"ARROW1".to_vec();
    body.extend(b"XXXXXX".to_vec());
    let info = classify(&body);
    assert_eq!(info.size, 12);
    assert!(!info.is_file_format);
}

#[test]
fn classify_length_prefix_little_endian() {
    let body: Vec<u8> = vec![0x78, 0x56, 0x34, 0x12, 0, 0, 0, 0];
    let info = classify(&body);
    assert!(info.has_length_prefix);
    assert_eq!(info.message_length, 0x12345678);

    let short: Vec<u8> = vec![0x78, 0x56, 0x34, 0x12, 0, 0, 0];
    let info = classify(&short);
    assert!(!info.has_length_prefix);
    assert_eq!(info.message_length, 0);
}

#[test]
fn classify_leading_and_trailing_bytes() {
    let body: Vec<u8> = (0u8..32u8).collect();
    let info = classify(&body);
    assert_eq!(info.leading_bytes, (0u8..16u8).collect::<Vec<u8>>());
    assert_eq!(info.trailing_bytes, (16u8..32u8).collect::<Vec<u8>>());

    let small: Vec<u8> = vec![9, 8, 7];
    let info = classify(&small);
    assert_eq!(info.leading_bytes, vec![9, 8, 7]);
    assert!(info.trailing_bytes.is_empty());
}

#[test]
fn classify_twice_yields_identical_output() {
    let body: Vec<u8> = vec![1, 2, 3, 4, 5, 6, 7, 8, 9, 10, 11, 12, 13, 14, 15, 16, 17];
    let first = classify(&body);
    let second = classify(&body);
    assert_eq!(first.size, second.size);
    assert_eq!(first.is_file_format, second.is_file_format);
    assert_eq!(first.has_length_prefix, second.has_length_prefix);
    assert_eq!(first.message_length, second.message_length);
    assert_eq!(first.leading_bytes, second.leading_bytes);
    assert_eq!(first.trailing_bytes, second.trailing_bytes);
}
