use vstd::prelude::*;

use crate::dtos::{is_student_id, validate_student_id};
use crate::errors::ErrorMessage;
use crate::images::{extension_of, format_of, kept_name, mime_of, ValidatedImage, DEFAULT_MAX_IMAGE_SIZE};
use crate::text::uuid_text;
use crate::models::full_name;
use crate::store::{account_verified_in, AuthRepo};

verus! {

/// Whether `user_id` names a verified account; an identifier that is not
/// seven digits is not looked up.
pub fn verified_user_exists(store: &AuthRepo, user_id: &str) -> (r: bool)
    requires
        store.wf(),
    ensures
        r == (is_student_id(user_id@) && account_verified_in(store@, user_id@)),
{
    if validate_student_id(user_id).is_err() {
        return false;
    }
    store.exists_verified(user_id)
}

/// What replacing a profile image writes and records.
pub struct ImageUpload {
    pub image: ValidatedImage,
    pub stored_name: String,
    pub disk_filename: String,
    pub size: i64,
    pub mime_type: &'static str,
    pub extension: &'static str,
    pub old_name: String,
}

/// Checks an uploaded image against the default size bound and its format,
/// and names it for storage: a fresh random name, then its extension.
pub fn prepare_image_upload(image_name: String, image: Vec<u8>) -> (r: Result<ImageUpload, ErrorMessage>)
    ensures
        image@.len() > DEFAULT_MAX_IMAGE_SIZE ==> r == Err::<ImageUpload, ErrorMessage>(
            ErrorMessage::FileSizeTooBig(DEFAULT_MAX_IMAGE_SIZE),
        ),
        image@.len() <= DEFAULT_MAX_IMAGE_SIZE && format_of(image@) is None ==> (r matches Err(
            ErrorMessage::FileInvalidFormat(_),
        )),
        image@.len() <= DEFAULT_MAX_IMAGE_SIZE && format_of(image@) is Some ==> (r matches Ok(u)
            && u.image@ == (image@, format_of(image@)->Some_0, kept_name(image_name@))
            && (exists|v: u128| u.stored_name@ == #[trigger] uuid_text(v))
            && u.disk_filename@ == full_name(u.stored_name@, extension_of(format_of(image@)->Some_0))
            && u.size == image@.len() as i64
            && u.mime_type@ == mime_of(format_of(image@)->Some_0)
            && u.extension@ == extension_of(format_of(image@)->Some_0)
            && u.old_name@ == kept_name(image_name@)),
{
    let image = match ValidatedImage::from_bytes(image_name, image, DEFAULT_MAX_IMAGE_SIZE) {
        Ok(i) => i,
        Err(e) => return Err(e),
    };
    let stored_name = image.generate_new_filename();
    let format = image.format();
    let extension = format.extension();
    let mut disk_filename = stored_name.clone();
    disk_filename.append(".");
    disk_filename.append(extension);
    let size = image.len();
    let old_name = image.old_name();
    Ok(ImageUpload { image, stored_name, disk_filename, size, mime_type: format.mime_type(), extension, old_name })
}

} // verus!
