use thumbnail_service::error::AppError;
use thumbnail_service::format::ImageFormat;
use thumbnail_service::request::{
    build_cache_key, default_height, default_width, validate_url, ThumbnailRequest,
};
use thumbnail_service::text::{push_decimal, same_text, starts_with};

#[test]
fn defaults_are_640_by_400() {
    assert_eq!(default_width(), 640);
    assert_eq!(default_height(), 400);
}

#[test]
fn cache_key_joins_the_four_fields() {
    assert_eq!(
        build_cache_key("http://a", 100, 100, &ImageFormat::Webp),
        "http://a:100:100:webp"
    );
    assert_eq!(
        build_cache_key("https://example.com/x?y=1", 640, 400, &ImageFormat::Jpeg),
        "https://example.com/x?y=1:640:400:jpeg"
    );
    assert_eq!(build_cache_key("", 1, 2, &ImageFormat::Png), ":1:2:png");
}

#[test]
fn cache_key_writes_sizes_in_decimal() {
    assert_eq!(build_cache_key("u", 0, 7, &ImageFormat::Png), "u:0:7:png");
    assert_eq!(build_cache_key("u", 10, 909, &ImageFormat::Png), "u:10:909:png");
    assert_eq!(
        build_cache_key("u", 4294967295, 1000000000, &ImageFormat::Png),
        "u:4294967295:1000000000:png"
    );
}

#[test]
fn cache_key_differs_when_the_format_differs() {
    assert_ne!(
        build_cache_key("http://a", 100, 100, &ImageFormat::Webp),
        build_cache_key("http://a", 100, 100, &ImageFormat::Jpeg)
    );
}

#[test]
fn cache_key_differs_when_any_field_differs() {
    let base = build_cache_key("http://a", 100, 200, &ImageFormat::Webp);
    assert_ne!(base, build_cache_key("http://b", 100, 200, &ImageFormat::Webp));
    assert_ne!(base, build_cache_key("http://a", 101, 200, &ImageFormat::Webp));
    assert_ne!(base, build_cache_key("http://a", 100, 201, &ImageFormat::Webp));
    assert_ne!(base, build_cache_key("http://a", 100, 200, &ImageFormat::Png));
}

#[test]
fn cache_key_keeps_colons_in_the_address_apart_from_the_size() {
    // An address that ends like a size must not collide with a shorter
    // address at that size.
    assert_ne!(
        build_cache_key("http://a:1", 2, 3, &ImageFormat::Png),
        build_cache_key("http://a", 1, 2, &ImageFormat::Png)
    );
    assert_ne!(
        build_cache_key("http://a:12", 3, 4, &ImageFormat::Png),
        build_cache_key("http://a", 12, 3, &ImageFormat::Png)
    );
}

#[test]
fn identical_requests_share_a_key() {
    let a = ThumbnailRequest::new("http://a".to_string(), 320, 200, ImageFormat::Jpeg).unwrap();
    let b = ThumbnailRequest::new("http://a".to_string(), 320, 200, ImageFormat::Jpeg).unwrap();
    assert_eq!(a.cache_key(), b.cache_key());
    assert_eq!(a.cache_key(), "http://a:320:200:jpeg");
}

#[test]
fn push_decimal_appends() {
    let mut text = String::from("n=");
    push_decimal(&mut text, 0);
    assert_eq!(text, "n=0");
    push_decimal(&mut text, 123);
    assert_eq!(text, "n=0123");
    push_decimal(&mut text, u32::MAX);
    assert_eq!(text, "n=01234294967295");
}

#[test]
fn starts_with_tests_prefixes() {
    assert!(starts_with("http://x", "http://"));
    assert!(starts_with("http://", "http://"));
    assert!(starts_with("anything", ""));
    assert!(!starts_with("http:/", "http://"));
    assert!(!starts_with("", "h"));
    assert!(!starts_with("xhttp://", "http://"));
    assert!(starts_with("\u{e9}t\u{e9}", "\u{e9}t"));
}

#[test]
fn same_text_compares_characters() {
    assert!(same_text("null", "null"));
    assert!(same_text("", ""));
    assert!(!same_text("null", "Null"));
    assert!(!same_text("null", "null "));
}

#[test]
fn request_needs_pixels() {
    assert!(ThumbnailRequest::new("http://a".to_string(), 0, 10, ImageFormat::Png).is_none());
    assert!(ThumbnailRequest::new("http://a".to_string(), 10, 0, ImageFormat::Png).is_none());
    assert!(ThumbnailRequest::new("http://a".to_string(), 0, 0, ImageFormat::Png).is_none());
    let made = ThumbnailRequest::new("http://a".to_string(), 1, 1, ImageFormat::Png).unwrap();
    assert_eq!(made.url(), "http://a");
    assert_eq!(made.width(), 1);
    assert_eq!(made.height(), 1);
    assert_eq!(made.format(), ImageFormat::Png);
}

#[test]
fn request_fields_default() {
    let made = ThumbnailRequest::with_defaults("http://a".to_string(), None, None, None).unwrap();
    assert_eq!(made.width(), 640);
    assert_eq!(made.height(), 400);
    assert_eq!(made.format(), ImageFormat::Webp);
    let made = ThumbnailRequest::with_defaults(
        "http://a".to_string(),
        Some(30),
        None,
        Some(ImageFormat::Jpeg),
    )
    .unwrap();
    assert_eq!(made.width(), 30);
    assert_eq!(made.height(), 400);
    assert_eq!(made.format(), ImageFormat::Jpeg);
    assert!(ThumbnailRequest::with_defaults("http://a".to_string(), Some(0), None, None).is_none());
}

#[test]
fn request_clone_is_equal() {
    let made = ThumbnailRequest::new("http://a".to_string(), 5, 6, ImageFormat::Webp).unwrap();
    assert_eq!(made.clone(), made);
}

#[test]
fn empty_url_is_a_bad_request() {
    assert_eq!(
        validate_url(""),
        Err(AppError::BadRequest("URL cannot be empty".to_string()))
    );
}

#[test]
fn ftp_url_is_a_bad_request() {
    assert_eq!(
        validate_url("ftp://x"),
        Err(AppError::BadRequest("Invalid URL scheme: ftp://x".to_string()))
    );
}

#[test]
fn other_schemes_are_bad_requests() {
    assert_eq!(
        validate_url("example.com"),
        Err(AppError::BadRequest("Invalid URL scheme: example.com".to_string()))
    );
    assert_eq!(
        validate_url("HTTP://x"),
        Err(AppError::BadRequest("Invalid URL scheme: HTTP://x".to_string()))
    );
    assert_eq!(
        validate_url("http:/x"),
        Err(AppError::BadRequest("Invalid URL scheme: http:/x".to_string()))
    );
}

#[test]
fn http_and_https_pass() {
    assert_eq!(validate_url("http://x"), Ok(()));
    assert_eq!(validate_url("https://x"), Ok(()));
    assert_eq!(validate_url("http://"), Ok(()));
    let made = ThumbnailRequest::new("https://a".to_string(), 5, 6, ImageFormat::Webp).unwrap();
    assert_eq!(made.validate(), Ok(()));
}
