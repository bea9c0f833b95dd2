use student_portal::errors::ErrorMessage;
use student_portal::file_storage::{is_safe_file_name, FileStorageType};
use student_portal::responses::{
    login_delivered, login_failure, register_delivered, register_failure, reset_request_delivered, reset_request_outcome,
    validate_failure,
};

#[test]
fn login_failures_do_not_reveal_accounts() {
    let e = login_failure(ErrorMessage::WrongCredentials);
    assert_eq!((e.status, e.message.as_str()), (401, "User credentials are invalid"));
    assert_eq!(login_failure(ErrorMessage::UserNotVerified).status, 401);
    assert_eq!(login_failure(ErrorMessage::ServerError).status, 500);
}

#[test]
fn register_conflict_is_409() {
    let e = register_failure(ErrorMessage::UserAlreadyExists);
    assert_eq!(e.status, 409);
    assert_eq!(e.message, "A user with this student id already exists");
    assert_eq!(register_failure(ErrorMessage::HashingError).status, 500);
}

#[test]
fn unknown_verification_token_is_400() {
    assert_eq!(validate_failure(ErrorMessage::VerifyTokenDoesNotExist).status, 400);
    assert_eq!(validate_failure(ErrorMessage::ServerError).status, 500);
}

#[test]
fn reset_request_hides_missing_accounts() {
    let a = reset_request_outcome(Ok(()));
    let b = reset_request_outcome(Err(ErrorMessage::UserNoLongerExists));
    assert_eq!(a.clone().unwrap(), b.unwrap());
    assert!(a.unwrap().starts_with("If the user exists"));
    assert_eq!(reset_request_outcome(Err(ErrorMessage::ServerError)).unwrap_err().status, 500);
}

#[test]
fn write_rejects_empty_filename() {
    assert_eq!(FileStorageType::UserImage.check_name(""), Err(ErrorMessage::FileInvalidName));
}

#[test]
fn write_rejects_invalid_filename_with_dots() {
    assert_eq!(FileStorageType::UserImage.check_name("../evil.txt"), Err(ErrorMessage::FileInvalidName));
}

#[test]
fn write_rejects_invalid_filename_with_slash() {
    assert_eq!(FileStorageType::UserImage.check_name("folder/evil.txt"), Err(ErrorMessage::FileInvalidName));
}

#[test]
fn write_rejects_invalid_filename_with_backslash() {
    assert_eq!(FileStorageType::UserImage.check_name("folder\\evil.txt"), Err(ErrorMessage::FileInvalidName));
}

#[test]
fn write_rejects_invalid_filename_with_null() {
    assert_eq!(FileStorageType::UserImage.check_name("evil\0.txt"), Err(ErrorMessage::FileInvalidName));
}

#[test]
fn plain_names_are_safe() {
    assert!(is_safe_file_name("photo.v2.png"));
    assert!(!is_safe_file_name("a..b"));
}

#[test]
fn directories_per_kind() {
    assert_eq!(FileStorageType::UserImage.directory_path(), "/srv/uploads/user_images");
    assert_eq!(FileStorageType::ProjectImage.directory_path(), "/srv/uploads/project_images");
}

#[test]
fn delete_rejects_invalid_filename() {
    assert_eq!(FileStorageType::UserImage.check_name("../evil.txt"), Err(ErrorMessage::FileInvalidName));
}

#[test]
fn failed_delivery_outcomes() {
    let failed = Err(ErrorMessage::ServerError);
    assert_eq!(
        register_delivered(Ok(()), failed.clone()),
        Err(ErrorMessage::EmailSendingFailed("Verification email failed to send".to_string()))
    );
    assert_eq!(register_delivered(Err(ErrorMessage::UserAlreadyExists), failed.clone()), Err(ErrorMessage::UserAlreadyExists));
    assert_eq!(
        login_delivered(Err(ErrorMessage::UserNotVerified), failed.clone()),
        Err(ErrorMessage::EmailSendingFailed("Verification email failed to send".to_string()))
    );
    assert_eq!(login_delivered(Ok("t".to_string()), Ok(())), Ok("t".to_string()));
    assert_eq!(reset_request_delivered(Ok(()), failed), Err(ErrorMessage::ServerError));
    assert_eq!(reset_request_delivered(Ok(()), Ok(())), Ok(()));
}
