use audio_sessions::icon::{encode_icon_pixels, finish_png_encoding};
use audio_sessions::icon_cache::IconCache;
use audio_sessions::pixels::bgra_to_rgba;

#[test]
fn red_and_blue_are_exchanged_per_pixel() {
    let mut pixels = vec![1u8, 2, 3, 4, 5, 6, 7, 8];
    bgra_to_rgba(&mut pixels);
    assert_eq!(pixels, vec![3, 2, 1, 4, 7, 6, 5, 8]);
    bgra_to_rgba(&mut pixels);
    assert_eq!(pixels, vec![1, 2, 3, 4, 5, 6, 7, 8]);
    let mut empty: Vec<u8> = Vec::new();
    bgra_to_rgba(&mut empty);
    assert!(empty.is_empty());
}

#[test]
fn base64_of_known_inputs() {
    let text = |bytes: &[u8]| finish_png_encoding(Ok(bytes.to_vec())).unwrap();
    assert_eq!(text(b""), "");
    assert_eq!(text(b"f"), "Zg==");
    assert_eq!(text(b"fo"), "Zm8=");
    assert_eq!(text(b"foo"), "Zm9v");
    assert_eq!(text(b"hello"), "aGVsbG8=");
    assert_eq!(text(&[0xFB, 0xFF, 0xBF]), "+/+/");
}

#[test]
fn png_bytes_become_base64_text() {
    assert_eq!(finish_png_encoding(Ok(vec![1, 2, 3])), Ok("AQID".to_string()));
    assert_eq!(finish_png_encoding(Ok(Vec::new())), Ok(String::new()));
}

#[test]
fn encoder_errors_are_reported_with_prefix() {
    let error = image::ImageError::Limits(image::error::LimitError::from_kind(
        image::error::LimitErrorKind::InsufficientMemory,
    ));
    let message = finish_png_encoding(Err(error)).unwrap_err();
    assert!(message.starts_with("Failed to encode image to PNG: "));
    assert!(message.len() > "Failed to encode image to PNG: ".len());
}

#[test]
fn single_pixel_icon_encodes_as_png() {
    let text = encode_icon_pixels(1, 1, vec![0, 0, 255, 255]).unwrap();
    // The base64 of the eight-byte PNG signature.
    assert!(text.starts_with("iVBORw0KGgo"));
    assert_eq!(text.len() % 4, 0);
}

#[test]
fn channel_order_changes_the_png() {
    let blue_first = encode_icon_pixels(1, 1, vec![255, 0, 0, 255]).unwrap();
    let red_first = encode_icon_pixels(1, 1, vec![0, 0, 255, 255]).unwrap();
    assert_ne!(blue_first, red_first);
}

#[test]
fn too_few_pixels_are_refused() {
    assert_eq!(
        encode_icon_pixels(2, 2, vec![0, 0, 0, 0]),
        Err("Failed to create RgbaImage".to_string())
    );
    assert_eq!(
        encode_icon_pixels(u32::MAX, u32::MAX, vec![0; 8]),
        Err("Failed to create RgbaImage".to_string())
    );
}

#[test]
fn extra_pixels_beyond_the_size_are_ignored() {
    let exact = encode_icon_pixels(1, 1, vec![9, 8, 7, 6]).unwrap();
    let longer = encode_icon_pixels(1, 1, vec![9, 8, 7, 6, 1, 2, 3, 4]).unwrap();
    assert_eq!(exact, longer);
}

#[test]
fn zero_sized_icon_fails_png_encoding() {
    let message = encode_icon_pixels(0, 0, Vec::new()).unwrap_err();
    assert!(message.starts_with("Failed to encode image to PNG: "));
}

#[test]
fn cache_returns_what_was_recorded() {
    let mut cache = IconCache::new();
    assert_eq!(cache.lookup("C:\\app.exe"), None);
    assert_eq!(
        cache.record("C:\\app.exe", Ok("AAAA".to_string())),
        Some("AAAA".to_string())
    );
    assert_eq!(cache.lookup("C:\\app.exe"), Some("AAAA".to_string()));
    assert_eq!(cache.lookup("C:\\other.exe"), None);
}

#[test]
fn failed_extraction_is_not_cached() {
    let mut cache = IconCache::new();
    assert_eq!(
        cache.record("C:\\broken.exe", Err("Failed to extract icon from C:\\broken.exe".to_string())),
        None
    );
    assert_eq!(cache.lookup("C:\\broken.exe"), None);
}

#[test]
fn insert_replaces_the_icon_of_a_path() {
    let mut cache = IconCache::new();
    cache.insert("a", "one".to_string());
    cache.insert("b", "two".to_string());
    cache.insert("a", "three".to_string());
    assert_eq!(cache.lookup("a"), Some("three".to_string()));
    assert_eq!(cache.lookup("b"), Some("two".to_string()));
}

#[test]
fn recording_never_replaces_a_cached_icon() {
    let mut cache = IconCache::new();
    cache.record("C:\\app.exe", Ok("first".to_string()));
    assert_eq!(
        cache.record("C:\\app.exe", Ok("second".to_string())),
        Some("first".to_string())
    );
    assert_eq!(
        cache.record("C:\\app.exe", Err("failed".to_string())),
        Some("first".to_string())
    );
    assert_eq!(cache.lookup("C:\\app.exe"), Some("first".to_string()));
}
