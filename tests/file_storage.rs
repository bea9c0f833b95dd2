use image::codecs::gif::{GifDecoder, GifEncoder, Repeat};
use image::AnimationDecoder;
use image::{ImageFormat, RgbaImage};
use student_portal::errors::ErrorMessage;
use student_portal::file_storage::{strip_gif_metadata, strip_metadata};

fn create_test_png() -> Vec<u8> {
    let img = RgbaImage::new(1, 1);
    let mut buf = Vec::new();
    let mut cursor = std::io::Cursor::new(&mut buf);
    img.write_to(&mut cursor, ImageFormat::Png).unwrap();
    buf
}

fn create_test_jpeg() -> Vec<u8> {
    let img = RgbaImage::new(1, 1);
    let rgb = image::DynamicImage::ImageRgba8(img).to_rgb8();
    let mut buf = Vec::new();
    let mut cursor = std::io::Cursor::new(&mut buf);
    image::DynamicImage::ImageRgb8(rgb).write_to(&mut cursor, ImageFormat::Jpeg).unwrap();
    buf
}

fn create_test_gif() -> Vec<u8> {
    let frame1 = image::Frame::new(RgbaImage::new(2, 2));
    let frame2 = image::Frame::new(RgbaImage::new(2, 2));
    let mut buf = Vec::new();
    {
        let mut encoder = GifEncoder::new(&mut buf);
        encoder.set_repeat(Repeat::Infinite).unwrap();
        encoder.encode_frames(vec![frame1, frame2]).unwrap();
    }
    buf
}

#[test]
fn strip_metadata_returns_valid_png() {
    let data = create_test_png();
    let result = strip_metadata("image.png", &data);
    assert!(result.is_ok());
    let clean = result.unwrap();
    assert!(image::load_from_memory_with_format(&clean, ImageFormat::Png).is_ok());
}

#[test]
fn strip_metadata_returns_valid_jpeg() {
    let data = create_test_jpeg();
    let result = strip_metadata("photo.jpg", &data);
    assert!(result.is_ok());
    let clean = result.unwrap();
    assert!(image::load_from_memory_with_format(&clean, ImageFormat::Jpeg).is_ok());
}

#[test]
fn strip_metadata_rejects_invalid_extension() {
    let result = strip_metadata("file.xyz", b"not an image");
    assert!(matches!(result, Err(ErrorMessage::FileInvalidFormat(_))));
}

#[test]
fn strip_metadata_rejects_corrupt_data() {
    let result = strip_metadata("image.png", b"not actually a png");
    assert!(matches!(result, Err(ErrorMessage::FileInvalidFormat(_))));
}

#[test]
fn strip_metadata_delegates_gif_to_strip_gif_metadata() {
    let data = create_test_gif();
    let result = strip_metadata("animation.gif", &data);
    assert!(result.is_ok());
    assert_eq!(result.unwrap(), strip_gif_metadata(&data).unwrap());
}

#[test]
fn strip_gif_metadata_preserves_animation() {
    let data = create_test_gif();
    let result = strip_gif_metadata(&data);
    assert!(result.is_ok());
    let clean = result.unwrap();
    let decoder = GifDecoder::new(std::io::Cursor::new(&clean)).unwrap();
    let frames: Vec<_> = decoder.into_frames().collect_frames().unwrap();
    assert_eq!(frames.len(), 2, "animated GIF should preserve both frames");
}

#[test]
fn strip_gif_metadata_rejects_invalid_data() {
    let result = strip_gif_metadata(b"not a gif");
    assert!(matches!(result, Err(ErrorMessage::FileInvalidFormat(_))));
}
