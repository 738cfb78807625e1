use thumbnail_service::entry::{check_decoded, check_encoded, encode_image_text, CachedData};
use thumbnail_service::error::AppError;

fn sample() -> CachedData {
    CachedData {
        image_data: vec![1, 2, 3],
        title: Some("T".to_string()),
        description: None,
    }
}

#[test]
fn entry_bytes_are_length_prefixed_fields_in_order() {
    let expected: Vec<u8> = vec![
        3, 0, 0, 0, 0, 0, 0, 0, // length of the image
        1, 2, 3, // the image
        1, // a title follows
        1, 0, 0, 0, 0, 0, 0, 0, // length of the title
        b'T', // the title
        0, // no description
    ];
    assert_eq!(sample().to_bytes(), Ok(expected));
}

#[test]
fn entry_bytes_match_bincode_on_the_triple() {
    let entry = CachedData {
        image_data: vec![9; 40],
        title: None,
        description: Some("d\u{e9}j\u{e0}".to_string()),
    };
    let direct =
        bincode::serialize(&(&entry.image_data, &entry.title, &entry.description)).unwrap();
    assert_eq!(entry.to_bytes(), Ok(direct));
}

#[test]
fn entry_reads_back() {
    let entries = [
        sample(),
        CachedData { image_data: vec![], title: None, description: None },
        CachedData {
            image_data: vec![0, 255, 7],
            title: Some(String::new()),
            description: Some("a description".to_string()),
        },
    ];
    for entry in entries {
        let bytes = entry.to_bytes().unwrap();
        assert_eq!(CachedData::from_bytes(&bytes), Ok(entry));
    }
}

#[test]
fn entry_from_garbage_is_an_internal_error() {
    match CachedData::from_bytes(&[1, 2]) {
        Err(AppError::Internal(message)) => {
            assert!(message.starts_with("Cache deserialization failed: "));
            assert!(message.len() > "Cache deserialization failed: ".len());
        }
        other => panic!("unexpected: {:?}", other),
    }
    assert!(matches!(CachedData::from_bytes(&[]), Err(AppError::Internal(_))));
}

#[test]
fn entry_with_a_truncated_image_is_an_internal_error() {
    let mut bytes = sample().to_bytes().unwrap();
    bytes.truncate(9);
    assert!(matches!(CachedData::from_bytes(&bytes), Err(AppError::Internal(_))));
}

#[test]
fn check_encoded_reports_the_cause() {
    assert_eq!(check_encoded(Ok(vec![5, 6])), Ok(vec![5, 6]));
    assert_eq!(
        check_encoded(Err("boom".to_string())),
        Err(AppError::Internal("Cache serialization failed: boom".to_string()))
    );
}

#[test]
fn check_decoded_reports_the_cause() {
    assert_eq!(check_decoded(Ok(sample())), Ok(sample()));
    assert_eq!(
        check_decoded(Err("boom".to_string())),
        Err(AppError::Internal("Cache deserialization failed: boom".to_string()))
    );
}

#[test]
fn entries_that_fit_the_machine_are_writable() {
    assert!(sample().is_writable());
    let large = CachedData {
        image_data: vec![7; (1 << 28) + 1],
        title: Some("t".repeat(1 << 20)),
        description: Some("\u{e9}".repeat(1000)),
    };
    assert!(large.is_writable());
    let bytes = large.to_bytes().unwrap();
    assert_eq!(bytes.len(), 8 + (1 << 28) + 1 + 9 + (1 << 20) + 9 + 2000);
    assert_eq!(CachedData::from_bytes(&bytes), Ok(large));
}

#[test]
fn captions_are_written_in_utf8() {
    let entry = CachedData {
        image_data: vec![],
        title: Some("\u{e9}".to_string()),
        description: Some(String::new()),
    };
    let expected: Vec<u8> = vec![
        0, 0, 0, 0, 0, 0, 0, 0, // an image of no bytes
        1, 2, 0, 0, 0, 0, 0, 0, 0, 0xc3, 0xa9, // a title of two bytes
        1, 0, 0, 0, 0, 0, 0, 0, 0, // a description of no bytes
    ];
    assert_eq!(entry.to_bytes(), Ok(expected));
}

#[test]
fn image_text_is_padded_base64() {
    assert_eq!(encode_image_text(b"hello"), Ok("aGVsbG8=".to_string()));
    assert_eq!(encode_image_text(b""), Ok(String::new()));
    assert_eq!(encode_image_text(&[0xfb, 0xff]), Ok("+/8=".to_string()));
    assert_eq!(encode_image_text(b"abc"), Ok("YWJj".to_string()));
    assert_eq!(encode_image_text(&[0xff]), Ok("/w==".to_string()));
    assert_eq!(encode_image_text(&[0, 0, 0, 0]), Ok("AAAAAA==".to_string()));
    let every_digit: Vec<u8> = vec![
        0x00, 0x10, 0x83, 0x10, 0x51, 0x87, 0x20, 0x92, 0x8b, 0x30, 0xd3, 0x8f, 0x41, 0x14, 0x93,
        0x51, 0x55, 0x97, 0x61, 0x96, 0x9b, 0x71, 0xd7, 0x9f, 0x82, 0x18, 0xa3, 0x92, 0x59, 0xa7,
        0xa2, 0x9a, 0xab, 0xb2, 0xdb, 0xaf, 0xc3, 0x1c, 0xb3, 0xd3, 0x5d, 0xb7, 0xe3, 0x9e, 0xbb,
        0xf3, 0xdf, 0xbf,
    ];
    assert_eq!(
        encode_image_text(&every_digit),
        Ok("ABCDEFGHIJKLMNOPQRSTUVWXYZabcdefghijklmnopqrstuvwxyz0123456789+/".to_string())
    );
    let large = vec![1u8; (1 << 28) + 2];
    assert_eq!(encode_image_text(&large).unwrap().len(), ((1 << 28) + 2 + 2) / 3 * 4);
}
