use vstd::prelude::*;

use vstd::string::StringSliceAdditionalSpecFns;

use crate::errors::ErrorMessage;
use crate::images::ImageFormat;

verus! {

/// Root directory of stored uploads.
pub const BASE_PATH: &'static str = "/srv/uploads";

/// Storage of uploaded files by name.
pub trait FileStorageTrait {
    fn write(&self, name: &str, data: &[u8]) -> Result<(), ErrorMessage>;

    fn delete(&self, name: &str) -> Result<(), ErrorMessage>;

    fn strip_metadata(&self, name: &str, data: &[u8]) -> Result<Vec<u8>, ErrorMessage>;
}

/// The kinds of stored files, each with its own directory.
#[derive(Debug, Clone, Copy, PartialEq, Eq)]
pub enum FileStorageType {
    UserImage,
    ProjectImage,
}

pub open spec fn sub_directory(t: FileStorageType) -> Seq<char> {
    match t {
        FileStorageType::UserImage => "user_images"@,
        FileStorageType::ProjectImage => "project_images"@,
    }
}

/// Whether the byte `b` occurs in `s`, or `b` then `c` do, side by side.
pub open spec fn has_byte(s: Seq<u8>, b: u8) -> bool {
    exists|i: int| 0 <= i < s.len() && #[trigger] s[i] == b
}

pub open spec fn has_pair(s: Seq<u8>, b: u8, c: u8) -> bool {
    exists|i: int| 0 <= i < s.len() - 1 && #[trigger] s[i] == b && s[i + 1] == c
}

/// A stored file's name must be non-empty and hold no `..`, `/`, `\` or NUL,
/// so that it cannot leave its directory.
pub open spec fn safe_file_name(name: Seq<u8>) -> bool {
    name.len() > 0 && !has_pair(name, 0x2E, 0x2E) && !has_byte(name, 0x2F) && !has_byte(name, 0x5C) && !has_byte(name, 0)
}

pub fn is_safe_file_name(name: &str) -> (r: bool)
    ensures
        r == safe_file_name(name.spec_bytes()),
{
    let b = name.as_bytes();
    if b.len() == 0 {
        return false;
    }
    let mut i: usize = 0;
    while i < b.len()
        invariant
            b@ == name.spec_bytes(),
            i <= b@.len(),
            forall|k: int| 0 <= k < i ==> #[trigger] b@[k] != 0x2F && b@[k] != 0x5C && b@[k] != 0,
            forall|k: int| 0 <= k < i && k + 1 < b@.len() ==> !(#[trigger] b@[k] == 0x2E && b@[k + 1] == 0x2E),
        decreases b.len() - i,
    {
        let c = b[i];
        if c == 0x2F || c == 0x5C || c == 0 {
            assert(has_byte(b@, c));
            return false;
        }
        if c == 0x2E && i + 1 < b.len() && b[i + 1] == 0x2E {
            assert(b@[i as int] == 0x2E && b@[i as int + 1] == 0x2E);
            return false;
        }
        i = i + 1;
    }
    true
}

/// Why re-encoding an image failed.
#[derive(Debug, Clone, Copy, PartialEq, Eq)]
pub enum CodecError {
    Decode,
    Encode,
}

/// The format that a file name's extension names, among those recognised.
pub uninterp spec fn name_format(name: Seq<char>) -> Option<ImageFormat>;

/// The bytes that decoding the still image `data` as `format` and encoding it
/// again give.
pub uninterp spec fn reencoded_still(data: Seq<u8>, format: ImageFormat) -> Seq<u8>;

/// The bytes that decoding every frame of the GIF `data` and encoding them
/// again, looping forever, give.
pub uninterp spec fn reencoded_gif(data: Seq<u8>) -> Seq<u8>;

/// Relies on `image::ImageFormat::from_path`, which reads the format from the
/// extension; formats this library does not recognise become `None`.
#[verifier::external_body]
fn format_from_name(name: &str) -> (r: Option<ImageFormat>)
    ensures
        r == name_format(name@),
{
    match image::ImageFormat::from_path(name).ok()? {
        image::ImageFormat::Jpeg => Some(ImageFormat::Jpeg),
        image::ImageFormat::Png => Some(ImageFormat::Png),
        image::ImageFormat::WebP => Some(ImageFormat::Webp),
        image::ImageFormat::Gif => Some(ImageFormat::Gif),
        image::ImageFormat::Avif => Some(ImageFormat::Avif),
        _ => None,
    }
}

/// Relies on `image::load_from_memory_with_format` and `DynamicImage::write_to`:
/// the pixels are decoded and encoded again, which leaves all metadata out.
#[verifier::external_body]
fn reencode_still(data: &[u8], format: ImageFormat) -> (r: Result<Vec<u8>, CodecError>)
    requires
        format != ImageFormat::Gif,
    ensures
        r matches Ok(v) ==> v@ == reencoded_still(data@, format),
{
    let format = match format {
        ImageFormat::Jpeg => image::ImageFormat::Jpeg,
        ImageFormat::Png => image::ImageFormat::Png,
        ImageFormat::Webp => image::ImageFormat::WebP,
        ImageFormat::Gif => image::ImageFormat::Gif,
        ImageFormat::Avif => image::ImageFormat::Avif,
    };
    let img = image::load_from_memory_with_format(data, format).map_err(|_| CodecError::Decode)?;
    let mut out = std::io::Cursor::new(Vec::new());
    img.write_to(&mut out, format).map_err(|_| CodecError::Encode)?;
    Ok(out.into_inner())
}

/// Relies on `image::codecs::gif::GifDecoder` and `GifEncoder`: every frame is
/// decoded and encoded again, looping forever, without the metadata.
#[verifier::external_body]
fn reencode_gif(data: &[u8]) -> (r: Result<Vec<u8>, CodecError>)
    ensures
        r matches Ok(v) ==> v@ == reencoded_gif(data@),
{
    let decoder = image::codecs::gif::GifDecoder::new(std::io::Cursor::new(data)).map_err(|_| CodecError::Decode)?;
    let frames = image::AnimationDecoder::into_frames(decoder).collect_frames().map_err(|_| CodecError::Decode)?;
    let mut buf = Vec::new();
    {
        let mut encoder = image::codecs::gif::GifEncoder::new(&mut buf);
        encoder.set_repeat(image::codecs::gif::Repeat::Infinite).map_err(|_| CodecError::Encode)?;
        encoder.encode_frames(frames.into_iter()).map_err(|_| CodecError::Encode)?;
    }
    Ok(buf)
}

/// The error for an image that cannot be read in the format its name gives.
pub open spec fn is_invalid_format(e: ErrorMessage) -> bool {
    e matches ErrorMessage::FileInvalidFormat(v) && v@.len() == 0
}

/// Maps a codec failure: unreadable input is an invalid format, a failed
/// encoding is a server error.
pub fn codec_failure(e: CodecError) -> (r: ErrorMessage)
    ensures
        e == CodecError::Decode ==> is_invalid_format(r),
        e == CodecError::Encode ==> r == ErrorMessage::ServerError,
{
    match e {
        CodecError::Decode => ErrorMessage::FileInvalidFormat(Vec::new()),
        CodecError::Encode => ErrorMessage::ServerError,
    }
}

/// Re-encodes all frames of a GIF, dropping its metadata.
pub fn strip_gif_metadata(data: &[u8]) -> (r: Result<Vec<u8>, ErrorMessage>)
    ensures
        match r {
            Ok(v) => v@ == reencoded_gif(data@),
            Err(e) => is_invalid_format(e) || e == ErrorMessage::ServerError,
        },
{
    match reencode_gif(data) {
        Ok(v) => Ok(v),
        Err(e) => Err(codec_failure(e)),
    }
}

/// Re-encodes an image in the format that its name gives, dropping EXIF, GPS
/// and other metadata; GIFs keep all their frames.
pub fn strip_metadata(name: &str, data: &[u8]) -> (r: Result<Vec<u8>, ErrorMessage>)
    ensures
        name_format(name@) is None ==> (r matches Err(e) && is_invalid_format(e)),
        name_format(name@) is Some ==> match r {
            Ok(v) => v@ == if name_format(name@) == Some(ImageFormat::Gif) {
                reencoded_gif(data@)
            } else {
                reencoded_still(data@, name_format(name@)->Some_0)
            },
            Err(e) => is_invalid_format(e) || e == ErrorMessage::ServerError,
        },
{
    let format = match format_from_name(name) {
        Some(f) => f,
        None => return Err(ErrorMessage::FileInvalidFormat(Vec::new())),
    };
    match format {
        ImageFormat::Gif => strip_gif_metadata(data),
        _ => match reencode_still(data, format) {
            Ok(v) => Ok(v),
            Err(e) => Err(codec_failure(e)),
        },
    }
}

impl FileStorageType {
    /// The directory of this kind of file: the base path, then its own directory.
    pub fn directory_path(&self) -> (r: String)
        ensures
            r@ == BASE_PATH@ + "/"@ + sub_directory(*self),
    {
        let mut p = BASE_PATH.to_owned();
        p.append("/");
        match self {
            FileStorageType::UserImage => p.append("user_images"),
            FileStorageType::ProjectImage => p.append("project_images"),
        }
        p
    }

    /// The name check that both writing and deleting apply.
    pub fn check_name(&self, name: &str) -> (r: Result<(), ErrorMessage>)
        ensures
            r is Ok <==> safe_file_name(name.spec_bytes()),
            r is Err ==> r == Err::<(), ErrorMessage>(ErrorMessage::FileInvalidName),
    {
        if is_safe_file_name(name) {
            Ok(())
        } else {
            Err(ErrorMessage::FileInvalidName)
        }
    }
}

} // verus!
