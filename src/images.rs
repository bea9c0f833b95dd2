use vstd::prelude::*;

use crate::errors::ErrorMessage;
use crate::sources::fresh_u128;
use crate::text::{uuid_string, uuid_text};

verus! {

/// Default upper bound on an uploaded image: 5 MiB.
pub const DEFAULT_MAX_IMAGE_SIZE: usize = 5 * 1024 * 1024;

/// The image formats recognised from a file's leading bytes.
#[derive(Debug, Clone, Copy, PartialEq, Eq)]
pub enum ImageFormat {
    Jpeg,
    Png,
    Webp,
    Gif,
    Avif,
}

pub open spec fn extension_of(f: ImageFormat) -> Seq<char> {
    match f {
        ImageFormat::Jpeg => "jpg"@,
        ImageFormat::Png => "png"@,
        ImageFormat::Webp => "webp"@,
        ImageFormat::Gif => "gif"@,
        ImageFormat::Avif => "avif"@,
    }
}

pub open spec fn mime_of(f: ImageFormat) -> Seq<char> {
    match f {
        ImageFormat::Jpeg => "image/jpeg"@,
        ImageFormat::Png => "image/png"@,
        ImageFormat::Webp => "image/webp"@,
        ImageFormat::Gif => "image/gif"@,
        ImageFormat::Avif => "image/avif"@,
    }
}

/// Whether `b` holds `pattern` from position `at` on.
pub open spec fn has_at(b: Seq<u8>, at: int, pattern: Seq<u8>) -> bool {
    at + pattern.len() <= b.len() && b.subrange(at, at + pattern.len()) == pattern
}

/// The format that the leading bytes name: JPEG `FF D8 FF`; PNG `89 'PNG'`;
/// WebP `'RIFF'` then `'WEBP'` at 8; GIF `'GIF87a'` or `'GIF89a'`; AVIF
/// `'ftypavif'` at 4; tried in that order, on at least 12 bytes.
pub open spec fn format_of(b: Seq<u8>) -> Option<ImageFormat> {
    if b.len() < 12 {
        None
    } else if has_at(b, 0, seq![0xFFu8, 0xD8, 0xFF]) {
        Some(ImageFormat::Jpeg)
    } else if has_at(b, 0, seq![0x89u8, 0x50, 0x4E, 0x47]) {
        Some(ImageFormat::Png)
    } else if has_at(b, 0, seq![0x52u8, 0x49, 0x46, 0x46]) && has_at(b, 8, seq![0x57u8, 0x45, 0x42, 0x50]) {
        Some(ImageFormat::Webp)
    } else if has_at(b, 0, seq![0x47u8, 0x49, 0x46, 0x38, 0x37, 0x61]) || has_at(
        b,
        0,
        seq![0x47u8, 0x49, 0x46, 0x38, 0x39, 0x61],
    ) {
        Some(ImageFormat::Gif)
    } else if has_at(b, 4, seq![0x66u8, 0x74, 0x79, 0x70, 0x61, 0x76, 0x69, 0x66]) {
        Some(ImageFormat::Avif)
    } else {
        None
    }
}

/// Whether `bytes` holds `pattern` from position `at` on.
fn bytes_at(bytes: &[u8], at: usize, pattern: &Vec<u8>) -> (r: bool)
    ensures
        r == has_at(bytes@, at as int, pattern@),
{
    if at > bytes.len() || pattern.len() > bytes.len() - at {
        return false;
    }
    let mut i: usize = 0;
    while i < pattern.len()
        invariant
            at + pattern@.len() <= bytes@.len(),
            bytes@.len() <= usize::MAX,
            i <= pattern@.len(),
            forall|k: int| 0 <= k < i ==> bytes@[at + k] == pattern@[k],
        decreases pattern.len() - i,
    {
        if bytes[at + i] != pattern[i] {
            assert(bytes@.subrange(at as int, at + pattern@.len())[i as int] != pattern@[i as int]);
            return false;
        }
        i = i + 1;
    }
    assert(bytes@.subrange(at as int, at + pattern@.len()) =~= pattern@);
    true
}

impl ImageFormat {
    /// File extension for storage, without the dot.
    pub fn extension(&self) -> (r: &'static str)
        ensures
            r@ == extension_of(*self),
    {
        match self {
            ImageFormat::Jpeg => "jpg",
            ImageFormat::Png => "png",
            ImageFormat::Webp => "webp",
            ImageFormat::Gif => "gif",
            ImageFormat::Avif => "avif",
        }
    }

    pub fn mime_type(&self) -> (r: &'static str)
        ensures
            r@ == mime_of(*self),
    {
        match self {
            ImageFormat::Jpeg => "image/jpeg",
            ImageFormat::Png => "image/png",
            ImageFormat::Webp => "image/webp",
            ImageFormat::Gif => "image/gif",
            ImageFormat::Avif => "image/avif",
        }
    }

    /// Detects the format from the leading bytes.
    pub fn from_bytes(bytes: &[u8]) -> (r: Option<Self>)
        ensures
            r == format_of(bytes@),
    {
        if bytes.len() < 12 {
            return None;
        }
        if bytes_at(bytes, 0, &vec![0xFFu8, 0xD8, 0xFF]) {
            Some(ImageFormat::Jpeg)
        } else if bytes_at(bytes, 0, &vec![0x89u8, 0x50, 0x4E, 0x47]) {
            Some(ImageFormat::Png)
        } else if bytes_at(bytes, 0, &vec![0x52u8, 0x49, 0x46, 0x46]) && bytes_at(bytes, 8, &vec![0x57u8, 0x45, 0x42, 0x50]) {
            Some(ImageFormat::Webp)
        } else if bytes_at(bytes, 0, &vec![0x47u8, 0x49, 0x46, 0x38, 0x37, 0x61]) || bytes_at(
            bytes,
            0,
            &vec![0x47u8, 0x49, 0x46, 0x38, 0x39, 0x61],
        ) {
            Some(ImageFormat::Gif)
        } else if bytes_at(bytes, 4, &vec![0x66u8, 0x74, 0x79, 0x70, 0x61, 0x76, 0x69, 0x66]) {
            Some(ImageFormat::Avif)
        } else {
            None
        }
    }
}

/// The stem of a file name as `std::path::Path::file_stem` gives it.
pub uninterp spec fn path_stem(name: Seq<char>) -> Option<Seq<char>>;

/// Relies on `std::path::Path::file_stem`: the final component of the path
/// without its extension, if there is a final component.
#[verifier::external_body]
fn file_stem(name: &str) -> (r: Option<String>)
    ensures
        match r {
            Some(s) => path_stem(name@) == Some(s@),
            None => path_stem(name@) is None,
        },
{
    std::path::Path::new(name).file_stem().and_then(|s| s.to_str()).map(|s| s.to_string())
}

/// The extensions of all recognised formats, in declaration order.
pub open spec fn valid_extensions() -> Seq<Seq<char>> {
    seq!["jpg"@, "png"@, "webp"@, "gif"@, "avif"@]
}

/// The name kept of an upload: the stem of its file name, or `unknown`.
pub open spec fn kept_name(file_name: Seq<char>) -> Seq<char> {
    match path_stem(file_name) {
        Some(s) => s,
        None => "unknown"@,
    }
}

/// An uploaded image whose size and format were checked.
pub struct ValidatedImage {
    bytes: Vec<u8>,
    format: ImageFormat,
    old_name: String,
}

impl View for ValidatedImage {
    type V = (Seq<u8>, ImageFormat, Seq<char>);

    closed spec fn view(&self) -> (Seq<u8>, ImageFormat, Seq<char>) {
        (self.bytes@, self.format, self.old_name@)
    }
}

impl ValidatedImage {
    /// Checks size, then format. Too large is `FileSizeTooBig(max_size)`; an
    /// unrecognised format is `FileInvalidFormat` listing the valid extensions.
    pub fn from_bytes(file_name: String, bytes: Vec<u8>, max_size: usize) -> (r: Result<Self, ErrorMessage>)
        ensures
            bytes@.len() > max_size ==> r == Err::<Self, ErrorMessage>(ErrorMessage::FileSizeTooBig(max_size)),
            bytes@.len() <= max_size && format_of(bytes@) is None ==> (r matches Err(ErrorMessage::FileInvalidFormat(v))
                && v@.map_values(|s: String| s@) == valid_extensions()),
            bytes@.len() <= max_size && format_of(bytes@) is Some ==> (r matches Ok(img)
                && img@ == (bytes@, format_of(bytes@)->Some_0, kept_name(file_name@))),
    {
        if bytes.len() > max_size {
            return Err(ErrorMessage::FileSizeTooBig(max_size));
        }
        let format = match ImageFormat::from_bytes(bytes.as_slice()) {
            Some(f) => f,
            None => {
                let mut valid: Vec<String> = Vec::new();
                valid.push(ImageFormat::Jpeg.extension().to_owned());
                valid.push(ImageFormat::Png.extension().to_owned());
                valid.push(ImageFormat::Webp.extension().to_owned());
                valid.push(ImageFormat::Gif.extension().to_owned());
                valid.push(ImageFormat::Avif.extension().to_owned());
                assert(valid@.map_values(|s: String| s@) =~= valid_extensions());
                return Err(ErrorMessage::FileInvalidFormat(valid));
            },
        };
        let old_name = match file_stem(file_name.as_str()) {
            Some(s) => s,
            None => "unknown".to_owned(),
        };
        Ok(ValidatedImage { old_name, bytes, format })
    }

    pub fn bytes(&self) -> (r: &[u8])
        ensures
            r@ == self@.0,
    {
        self.bytes.as_slice()
    }

    pub fn format(&self) -> (r: ImageFormat)
        ensures
            r == self@.1,
    {
        self.format
    }

    pub fn len(&self) -> (r: i64)
        ensures
            r == self@.0.len() as i64,
    {
        self.bytes.len() as i64
    }

    pub fn old_name(&self) -> (r: String)
        ensures
            r@ == self@.2,
    {
        self.old_name.clone()
    }

    /// A fresh random name for storing the image; no user input goes in it.
    pub fn generate_new_filename(&self) -> (r: String)
        ensures
            exists|v: u128| r@ == #[trigger] uuid_text(v),
    {
        uuid_string(fresh_u128())
    }
}

} // verus!
