use vstd::prelude::*;

use crate::auth::verification_send_failure;
use crate::errors::{message_of, ErrorMessage, HttpError, STATUS_BAD_REQUEST, STATUS_CONFLICT, STATUS_SERVER_ERROR, STATUS_UNAUTHORIZED};

verus! {

/// What the caller of a login learns of a failure: unknown identifier and
/// wrong password read the same.
pub fn login_failure(e: ErrorMessage) -> (r: HttpError)
    ensures
        e == ErrorMessage::WrongCredentials ==> r.status == STATUS_UNAUTHORIZED && r.message@ == "User credentials are invalid"@,
        e == ErrorMessage::UserNotVerified ==> r.status == STATUS_UNAUTHORIZED
            && r.message@ == "User is not verified, please check your emails to verify your account"@,
        e != ErrorMessage::WrongCredentials && e != ErrorMessage::UserNotVerified ==> r.status == STATUS_SERVER_ERROR
            && r.message@ == "error logging in user"@,
{
    match e {
        ErrorMessage::WrongCredentials => HttpError::unauthorized("User credentials are invalid"),
        ErrorMessage::UserNotVerified => HttpError::unauthorized("User is not verified, please check your emails to verify your account"),
        _ => HttpError::server_error("error logging in user"),
    }
}

/// What the caller of a registration learns of a failure.
pub fn register_failure(e: ErrorMessage) -> (r: HttpError)
    ensures
        r.message@ == message_of(e),
        r.status == (if e == ErrorMessage::UserAlreadyExists { STATUS_CONFLICT } else { STATUS_SERVER_ERROR }),
{
    match e {
        ErrorMessage::UserAlreadyExists => HttpError::unique_constraint_voilation(ErrorMessage::UserAlreadyExists),
        _ => HttpError::server_error(e),
    }
}

/// What the caller of an email verification learns of a failure.
pub fn validate_failure(e: ErrorMessage) -> (r: HttpError)
    ensures
        r.message@ == message_of(e),
        r.status == (if e == ErrorMessage::VerifyTokenDoesNotExist { STATUS_BAD_REQUEST } else { STATUS_SERVER_ERROR }),
{
    match e {
        ErrorMessage::VerifyTokenDoesNotExist => HttpError::bad_request(ErrorMessage::VerifyTokenDoesNotExist),
        _ => HttpError::server_error(e),
    }
}

pub open spec fn reset_request_reply() -> Seq<char> {
    "If the user exists, you will receive an email with a link to reset your password"@
}

/// What the caller of a reset request learns: the same success whether or not
/// the account exists; only a server failure shows.
pub fn reset_request_outcome(r: Result<(), ErrorMessage>) -> (out: Result<String, HttpError>)
    ensures
        r == Err::<(), ErrorMessage>(ErrorMessage::ServerError) ==> (out matches Err(e) && e.status == STATUS_SERVER_ERROR
            && e.message@ == "An error occured please try again later"@),
        r != Err::<(), ErrorMessage>(ErrorMessage::ServerError) ==> (out matches Ok(m) && m@ == reset_request_reply()),
{
    match r {
        Err(ErrorMessage::ServerError) => Err(HttpError::server_error("An error occured please try again later")),
        _ => Ok("If the user exists, you will receive an email with a link to reset your password".to_owned()),
    }
}

/// A registration once its queued verification message was delivered, or
/// not: a failed delivery after a successful registration is
/// `EmailSendingFailed`; anything else stands.
pub fn register_delivered(r: Result<(), ErrorMessage>, delivery: Result<(), ErrorMessage>) -> (out: Result<(), ErrorMessage>)
    ensures
        r is Ok && delivery is Err ==> (out matches Err(ErrorMessage::EmailSendingFailed(m)) && m@
            == verification_send_failure()),
        !(r is Ok && delivery is Err) ==> out == r,
{
    match (r, delivery) {
        (Ok(()), Err(_)) => Err(ErrorMessage::EmailSendingFailed("Verification email failed to send".to_owned())),
        (r, _) => r,
    }
}

/// A login once the verification message it queued was delivered, or not: a
/// failed delivery turns `UserNotVerified` into `EmailSendingFailed`.
pub fn login_delivered(r: Result<String, ErrorMessage>, delivery: Result<(), ErrorMessage>) -> (out: Result<String, ErrorMessage>)
    ensures
        r == Err::<String, ErrorMessage>(ErrorMessage::UserNotVerified) && delivery is Err ==> (out matches Err(
            ErrorMessage::EmailSendingFailed(m),
        ) && m@ == verification_send_failure()),
        !(r == Err::<String, ErrorMessage>(ErrorMessage::UserNotVerified) && delivery is Err) ==> out == r,
{
    match (r, delivery) {
        (Err(ErrorMessage::UserNotVerified), Err(_)) => Err(
            ErrorMessage::EmailSendingFailed("Verification email failed to send".to_owned()),
        ),
        (r, _) => r,
    }
}

/// A reset request once its queued message was delivered, or not: a failed
/// delivery after a successful request is a server error.
pub fn reset_request_delivered(r: Result<(), ErrorMessage>, delivery: Result<(), ErrorMessage>) -> (out: Result<(), ErrorMessage>)
    ensures
        r is Ok && delivery is Err ==> out == Err::<(), ErrorMessage>(ErrorMessage::ServerError),
        !(r is Ok && delivery is Err) ==> out == r,
{
    match (r, delivery) {
        (Ok(()), Err(_)) => Err(ErrorMessage::ServerError),
        (r, _) => r,
    }
}

} // verus!
