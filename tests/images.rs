use student_portal::images::{ImageFormat, ValidatedImage};
use student_portal::errors::ErrorMessage;

const MAX: usize = 5 * 1024 * 1024;

fn dummy_jpeg() -> Vec<u8> {
    vec![0xFF, 0xD8, 0xFF, 0x00, 0x00, 0x00, 0x00, 0x00, 0x00, 0x00, 0x00, 0x00]
}

fn dummy_png() -> Vec<u8> {
    vec![0x89, 0x50, 0x4E, 0x47, 0, 0, 0, 0, 0, 0, 0, 0]
}

fn dummy_webp() -> Vec<u8> {
    let mut v = vec![0; 12];
    v[0..4].copy_from_slice(b"RIFF");
    v[8..12].copy_from_slice(b"WEBP");
    v
}

fn dummy_gif() -> Vec<u8> {
    let mut v = b"GIF89a".to_vec();
    v.extend_from_slice(&[0u8; 6]);
    v
}

fn dummy_avif() -> Vec<u8> {
    let mut v = vec![0u8; 12];
    v[4..8].copy_from_slice(b"ftyp");
    v[8..12].copy_from_slice(b"avif");
    v
}

#[test]
fn detects_jpeg() {
    let format = ImageFormat::from_bytes(&dummy_jpeg());
    assert_eq!(format, Some(ImageFormat::Jpeg));
}

#[test]
fn detects_png() {
    let format = ImageFormat::from_bytes(&dummy_png());
    assert_eq!(format, Some(ImageFormat::Png));
}

#[test]
fn detects_webp() {
    let format = ImageFormat::from_bytes(&dummy_webp());
    assert_eq!(format, Some(ImageFormat::Webp));
}

#[test]
fn rejects_invalid_format() {
    let bytes = vec![1, 2, 3, 4, 5, 6, 7, 8, 9, 10, 11, 12];
    let format = ImageFormat::from_bytes(&bytes);
    assert_eq!(format, None);
}

#[test]
fn rejects_small_buffer() {
    let bytes = vec![0xFF, 0xD8];
    let format = ImageFormat::from_bytes(&bytes);
    assert_eq!(format, None);
}

#[test]
fn rejects_file_too_large() {
    let bytes = vec![0u8; MAX + 1];
    let result = ValidatedImage::from_bytes("test.jpg".into(), bytes, MAX);
    assert!(result.is_err());
}

#[test]
fn accepts_valid_image() {
    let bytes = dummy_jpeg();
    let result = ValidatedImage::from_bytes("photo.jpg".into(), bytes, MAX);

    assert!(result.is_ok());

    let img = result.unwrap();
    assert_eq!(img.format(), ImageFormat::Jpeg);
    assert_eq!(img.bytes().len(), 12);
}

#[test]
fn detects_gif() {
    assert_eq!(ImageFormat::from_bytes(&dummy_gif()), Some(ImageFormat::Gif));
}

#[test]
fn detects_avif() {
    assert_eq!(ImageFormat::from_bytes(&dummy_avif()), Some(ImageFormat::Avif));
}

#[test]
fn detects_gif87a() {
    let mut v = b"GIF87a".to_vec();
    v.extend_from_slice(&[0u8; 6]);
    assert_eq!(ImageFormat::from_bytes(&v), Some(ImageFormat::Gif));
}

#[test]
fn too_large_reports_the_limit() {
    let result = ValidatedImage::from_bytes("big.jpg".into(), vec![0u8; 20], 10);
    assert_eq!(result.err(), Some(ErrorMessage::FileSizeTooBig(10)));
}

#[test]
fn unknown_format_lists_valid_extensions() {
    let result = ValidatedImage::from_bytes("x.bin".into(), vec![1u8; 12], MAX);
    let expected: Vec<String> = ["jpg", "png", "webp", "gif", "avif"].iter().map(|s| s.to_string()).collect();
    assert_eq!(result.err(), Some(ErrorMessage::FileInvalidFormat(expected)));
}

#[test]
fn keeps_file_stem_as_old_name() {
    let img = ValidatedImage::from_bytes("holiday.photo.png".into(), dummy_png(), MAX).unwrap();
    assert_eq!(img.old_name(), "holiday.photo");
    assert_eq!(img.len(), 12);
    assert_eq!(img.format().extension(), "png");
    assert_eq!(img.format().mime_type(), "image/png");
}

#[test]
fn empty_file_name_keeps_unknown() {
    let img = ValidatedImage::from_bytes("".into(), dummy_gif(), MAX).unwrap();
    assert_eq!(img.old_name(), "unknown");
}

#[test]
fn new_filenames_differ() {
    let img = ValidatedImage::from_bytes("a.jpg".into(), dummy_jpeg(), MAX).unwrap();
    let a = img.generate_new_filename();
    let b = img.generate_new_filename();
    assert_ne!(a, b);
    assert_eq!(a.len(), 36);
}
