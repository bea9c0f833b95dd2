use student_portal::errors::{ErrorMessage, HttpError};

#[test]
fn error_message_empty_password_display() {
    let msg = ErrorMessage::EmptyPassword;
    assert_eq!(msg.to_string(), "Password cannot be empty");
}

#[test]
fn error_message_exceeded_max_password_length_display() {
    let msg = ErrorMessage::ExceededMaxPasswordLength(72);
    assert_eq!(msg.to_string(), "Exceeded max password length of 72");
}

#[test]
fn error_message_hashing_error_display() {
    assert_eq!(ErrorMessage::HashingError.to_string(), "Error while hashing password");
}

#[test]
fn error_message_invalid_hash_format_display() {
    assert_eq!(ErrorMessage::InvalidHashFormat.to_string(), "Invalid password hash format");
}

#[test]
fn error_message_invalid_token_display() {
    assert_eq!(
        ErrorMessage::InvalidToken.to_string(),
        "Authentication token is invalid or expired"
    );
}

#[test]
fn error_message_server_error_display() {
    assert_eq!(ErrorMessage::ServerError.to_string(), "Server error. Please try again later.");
}

#[test]
fn error_message_wrong_credentials_display() {
    assert_eq!(ErrorMessage::WrongCredentials.to_string(), "Email or password is incorrect");
}

#[test]
fn error_message_user_already_exists_display() {
    assert_eq!(
        ErrorMessage::UserAlreadyExists.to_string(),
        "A user with this student id already exists"
    );
}

#[test]
fn error_message_user_no_longer_exists_display() {
    assert_eq!(
        ErrorMessage::UserNoLongerExists.to_string(),
        "User belonging to this token no longer exists"
    );
}

#[test]
fn error_message_token_not_provided_display() {
    assert_eq!(
        ErrorMessage::TokenNotProvided.to_string(),
        "You are not logged in, please provide a token"
    );
}

#[test]
fn error_message_permission_denied_display() {
    assert_eq!(
        ErrorMessage::PermissionDenied.to_string(),
        "You do not have permission to perform this action"
    );
}

#[test]
fn error_message_email_sending_failed_display() {
    let msg = ErrorMessage::EmailSendingFailed("SMTP timeout".to_string());
    assert_eq!(msg.to_string(), "Error occurred while sending an email: SMTP timeout");
}

#[test]
fn error_message_verify_token_does_not_exist_display() {
    assert_eq!(
        ErrorMessage::VerifyTokenDoesNotExist.to_string(),
        "The token provided does not exist"
    );
}

#[test]
fn error_message_user_not_verified_display() {
    assert_eq!(
        ErrorMessage::UserNotVerified.to_string(),
        "User has not verified their account, please check your email"
    );
}

#[test]
fn error_message_file_size_too_big_display() {
    let size = 10 * 1024 * 1024;
    let msg = ErrorMessage::FileSizeTooBig(size);
    assert_eq!(msg.to_string(), "File size exceeds max: 10 MiB");
}

#[test]
fn error_message_file_size_too_big_rounding() {
    let size = 5 * 1024 * 1024 + 512 * 1024;
    let msg = ErrorMessage::FileSizeTooBig(size);
    assert_eq!(msg.to_string(), "File size exceeds max: 5 MiB");
}

#[test]
fn error_message_file_invalid_format_display() {
    let formats = vec!["png".to_string(), "jpg".to_string(), "webp".to_string()];
    let msg = ErrorMessage::FileInvalidFormat(formats);
    assert_eq!(msg.to_string(), "Invalid file format. Valid formats: png, jpg, webp");
}

#[test]
fn error_message_file_invalid_format_single() {
    let formats = vec!["pdf".to_string()];
    let msg = ErrorMessage::FileInvalidFormat(formats);
    assert_eq!(msg.to_string(), "Invalid file format. Valid formats: pdf");
}

#[test]
fn error_message_into_string() {
    let s: String = ErrorMessage::ServerError.into();
    assert_eq!(s, "Server error. Please try again later.");
}

#[test]
fn error_message_equality() {
    assert_eq!(ErrorMessage::InvalidToken, ErrorMessage::InvalidToken);
    assert_ne!(ErrorMessage::InvalidToken, ErrorMessage::ServerError);
}

#[test]
fn error_message_parameterised_equality() {
    assert_eq!(
        ErrorMessage::ExceededMaxPasswordLength(72),
        ErrorMessage::ExceededMaxPasswordLength(72)
    );
    assert_ne!(
        ErrorMessage::ExceededMaxPasswordLength(72),
        ErrorMessage::ExceededMaxPasswordLength(128)
    );
}

#[test]
fn http_error_new() {
    let err = HttpError::new("test error", 418);
    assert_eq!(err.message, "test error");
    assert_eq!(err.status, 418);
}

#[test]
fn http_error_server_error() {
    let err = HttpError::server_error("db crashed");
    assert_eq!(err.status, 500);
    assert_eq!(err.message, "db crashed");
}

#[test]
fn http_error_bad_request() {
    let err = HttpError::bad_request("missing field");
    assert_eq!(err.status, 400);
    assert_eq!(err.message, "missing field");
}

#[test]
fn http_error_unique_constraint_violation() {
    let err = HttpError::unique_constraint_voilation("duplicate email");
    assert_eq!(err.status, 409);
    assert_eq!(err.message, "duplicate email");
}

#[test]
fn http_error_unauthorized() {
    let err = HttpError::unauthorized("bad token");
    assert_eq!(err.status, 401);
    assert_eq!(err.message, "bad token");
}

#[test]
fn http_error_response_400() {
    let resp = HttpError::bad_request("invalid");
    assert_eq!(resp.response_status(), 400);
}

#[test]
fn http_error_response_401() {
    let resp = HttpError::unauthorized("denied");
    assert_eq!(resp.response_status(), 401);
}

#[test]
fn http_error_response_409() {
    let resp = HttpError::unique_constraint_voilation("conflict");
    assert_eq!(resp.response_status(), 409);
}

#[test]
fn http_error_response_500() {
    let resp = HttpError::server_error("boom");
    assert_eq!(resp.response_status(), 500);
}

#[test]
fn http_error_response_unknown_status_falls_back_to_500() {
    let err = HttpError::new("weird", 499);
    assert_eq!(err.response_status(), 500);
}

#[test]
fn http_error_response_body_contains_message() {
    let resp = HttpError::bad_request("field missing");
    assert_eq!(resp.response_message(), "field missing");
}

#[test]
fn http_error_response_500_body() {
    let resp = HttpError::server_error("internal");
    assert_eq!(resp.response_message(), "internal");
}

#[test]
fn http_error_unknown_status_body_uses_generic_message() {
    let err = HttpError::new("custom msg", 418);
    assert_eq!(err.response_message(), "Server error. Please try again later.");
}

#[test]
fn http_error_display() {
    let err = HttpError::new("test", 400);
    let displayed = err.to_string();
    assert!(displayed.contains("test"));
    assert!(displayed.contains("400"));
}

#[test]
fn http_error_display_exact_text() {
    let err = HttpError::new("test", 400);
    assert_eq!(err.to_string(), "HttpError: message: test, status: 400");
}

#[test]
fn http_error_accepts_string_message() {
    let msg = String::from("owned string");
    let err = HttpError::new(msg, 400);
    assert_eq!(err.message, "owned string");
}

#[test]
fn http_error_accepts_error_message_enum() {
    let err = HttpError::bad_request(ErrorMessage::EmptyPassword);
    assert_eq!(err.message, "Password cannot be empty");
}

#[test]
fn http_error_clone() {
    let err = HttpError::new("cloneable", 400);
    let cloned = err.clone();
    assert_eq!(err.message, cloned.message);
    assert_eq!(err.status, cloned.status);
}

#[test]
fn error_message_email_failed_with_empty_string() {
    let msg = ErrorMessage::EmailSendingFailed(String::new());
    assert_eq!(msg.to_string(), "Error occurred while sending an email: ");
}

#[test]
fn error_message_file_invalid_format_empty_vec() {
    let msg = ErrorMessage::FileInvalidFormat(vec![]);
    assert_eq!(msg.to_string(), "Invalid file format. Valid formats: ");
}

#[test]
fn error_message_file_size_zero() {
    let msg = ErrorMessage::FileSizeTooBig(0);
    assert_eq!(msg.to_string(), "File size exceeds max: 0 MiB");
}

#[test]
fn error_message_exceeded_password_length_zero() {
    let msg = ErrorMessage::ExceededMaxPasswordLength(0);
    assert_eq!(msg.to_string(), "Exceeded max password length of 0");
}

#[test]
fn error_message_large_number_display() {
    let msg = ErrorMessage::ExceededMaxPasswordLength(1234567890);
    assert_eq!(msg.to_string(), "Exceeded max password length of 1234567890");
}
