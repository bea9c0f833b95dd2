use vstd::prelude::*;

use crate::text::{decimal, joined, push_decimal, push_joined};

verus! {

/// Every outcome, other than success, that the library reports.
#[derive(Debug, PartialEq, Clone)]
pub enum ErrorMessage {
    EmptyPassword,
    ExceededMaxPasswordLength(usize),
    HashingError,
    InvalidHashFormat,
    InvalidToken,
    ServerError,
    WrongCredentials,
    UserAlreadyExists,
    UserNoLongerExists,
    TokenNotProvided,
    PermissionDenied,
    EmailSendingFailed(String),
    VerifyTokenDoesNotExist,
    UserNotVerified,
    FileSizeTooBig(usize),
    FileInvalidFormat(Vec<String>),
    FileInvalidName,
    NoFileProvided,
    InvalidFileData,
}

pub const MIB: usize = 1048576;

/// The user-facing text of each error.
pub open spec fn message_of(e: ErrorMessage) -> Seq<char> {
    match e {
        ErrorMessage::EmptyPassword => "Password cannot be empty"@,
        ErrorMessage::ExceededMaxPasswordLength(n) => "Exceeded max password length of "@
            + decimal(n as nat),
        ErrorMessage::HashingError => "Error while hashing password"@,
        ErrorMessage::InvalidHashFormat => "Invalid password hash format"@,
        ErrorMessage::InvalidToken => "Authentication token is invalid or expired"@,
        ErrorMessage::ServerError => "Server error. Please try again later."@,
        ErrorMessage::WrongCredentials => "Email or password is incorrect"@,
        ErrorMessage::UserAlreadyExists => "A user with this student id already exists"@,
        ErrorMessage::UserNoLongerExists => "User belonging to this token no longer exists"@,
        ErrorMessage::TokenNotProvided => "You are not logged in, please provide a token"@,
        ErrorMessage::PermissionDenied => "You do not have permission to perform this action"@,
        ErrorMessage::EmailSendingFailed(detail) => "Error occurred while sending an email: "@
            + detail@,
        ErrorMessage::VerifyTokenDoesNotExist => "The token provided does not exist"@,
        ErrorMessage::UserNotVerified =>
            "User has not verified their account, please check your email"@,
        ErrorMessage::FileSizeTooBig(size) => "File size exceeds max: "@ + decimal(
            (size / MIB) as nat,
        ) + " MiB"@,
        ErrorMessage::FileInvalidFormat(formats) => "Invalid file format. Valid formats: "@
            + joined(formats@.map_values(|s: String| s@), ", "@),
        ErrorMessage::FileInvalidName => "Invalid file name"@,
        ErrorMessage::NoFileProvided => "No File Provided"@,
        ErrorMessage::InvalidFileData => "Invalid File Data"@,
    }
}

impl ErrorMessage {
    /// The user-facing text of this error.
    pub fn to_str(&self) -> (r: String)
        ensures
            r@ == message_of(*self),
    {
        match self {
            ErrorMessage::EmptyPassword => "Password cannot be empty".to_owned(),
            ErrorMessage::ExceededMaxPasswordLength(length) => {
                let mut s = "Exceeded max password length of ".to_owned();
                push_decimal(&mut s, *length);
                s
            },
            ErrorMessage::HashingError => "Error while hashing password".to_owned(),
            ErrorMessage::InvalidHashFormat => "Invalid password hash format".to_owned(),
            ErrorMessage::InvalidToken => "Authentication token is invalid or expired".to_owned(),
            ErrorMessage::ServerError => "Server error. Please try again later.".to_owned(),
            ErrorMessage::WrongCredentials => "Email or password is incorrect".to_owned(),
            ErrorMessage::UserAlreadyExists => "A user with this student id already exists".to_owned(),
            ErrorMessage::UserNoLongerExists => "User belonging to this token no longer exists".to_owned(),
            ErrorMessage::TokenNotProvided => "You are not logged in, please provide a token".to_owned(),
            ErrorMessage::PermissionDenied => "You do not have permission to perform this action".to_owned(),
            ErrorMessage::EmailSendingFailed(error) => {
                let mut s = "Error occurred while sending an email: ".to_owned();
                s.append(error.as_str());
                s
            },
            ErrorMessage::VerifyTokenDoesNotExist => "The token provided does not exist".to_owned(),
            ErrorMessage::UserNotVerified => "User has not verified their account, please check your email".to_owned(),
            ErrorMessage::FileSizeTooBig(size) => {
                let mut s = "File size exceeds max: ".to_owned();
                push_decimal(&mut s, *size / MIB);
                s.append(" MiB");
                s
            },
            ErrorMessage::FileInvalidFormat(file_formats) => {
                let mut s = "Invalid file format. Valid formats: ".to_owned();
                push_joined(&mut s, file_formats, ", ");
                s
            },
            ErrorMessage::FileInvalidName => "Invalid file name".to_owned(),
            ErrorMessage::NoFileProvided => "No File Provided".to_owned(),
            ErrorMessage::InvalidFileData => "Invalid File Data".to_owned(),
        }
    }

    /// The user-facing text of this error.
    pub fn to_string(&self) -> (r: String)
        ensures
            r@ == message_of(*self),
    {
        self.to_str()
    }
}

impl From<ErrorMessage> for String {
    fn from(value: ErrorMessage) -> (r: String) {
        value.to_str()
    }
}

impl vstd::std_specs::convert::FromSpecImpl<ErrorMessage> for String {
    // A `String` has no spec-level constructor, so the text is stated on `to_str` instead.
    open spec fn obeys_from_spec() -> bool {
        false
    }

    open spec fn from_spec(v: ErrorMessage) -> String {
        arbitrary()
    }
}

/// A value that can serve as the message of an `HttpError`.
pub trait IntoMessage: Sized {
    spec fn message_view(&self) -> Seq<char>;

    fn into_message(self) -> (r: String)
        ensures
            r@ == self.message_view(),
    ;
}

impl IntoMessage for String {
    open spec fn message_view(&self) -> Seq<char> {
        self@
    }

    fn into_message(self) -> (r: String) {
        self
    }
}

impl<'a> IntoMessage for &'a str {
    open spec fn message_view(&self) -> Seq<char> {
        (*self)@
    }

    fn into_message(self) -> (r: String) {
        self.to_owned()
    }
}

impl IntoMessage for ErrorMessage {
    open spec fn message_view(&self) -> Seq<char> {
        message_of(*self)
    }

    fn into_message(self) -> (r: String) {
        self.to_str()
    }
}

/// The body of an error response.
#[derive(Debug, Clone)]
pub struct ErrorResponse {
    pub status: String,
    pub message: String,
}

/// An error as it crosses the HTTP boundary: a message and a status code.
#[derive(Debug, Clone)]
pub struct HttpError {
    pub message: String,
    pub status: u16,
}

pub const STATUS_BAD_REQUEST: u16 = 400;

pub const STATUS_UNAUTHORIZED: u16 = 401;

pub const STATUS_CONFLICT: u16 = 409;

pub const STATUS_SERVER_ERROR: u16 = 500;

/// The text that `HttpError::to_string` renders.
pub open spec fn http_error_text(message: Seq<char>, status: u16) -> Seq<char> {
    "HttpError: message: "@ + message + ", status: "@ + decimal(status as nat)
}

impl HttpError {
    pub fn new<M: IntoMessage>(message: M, status: u16) -> (r: Self)
        ensures
            r.message@ == message.message_view(),
            r.status == status,
    {
        HttpError { message: message.into_message(), status }
    }

    pub fn server_error<M: IntoMessage>(message: M) -> (r: Self)
        ensures
            r.message@ == message.message_view(),
            r.status == STATUS_SERVER_ERROR,
    {
        Self::new(message, STATUS_SERVER_ERROR)
    }

    pub fn bad_request<M: IntoMessage>(message: M) -> (r: Self)
        ensures
            r.message@ == message.message_view(),
            r.status == STATUS_BAD_REQUEST,
    {
        Self::new(message, STATUS_BAD_REQUEST)
    }

    pub fn unique_constraint_voilation<M: IntoMessage>(message: M) -> (r: Self)
        ensures
            r.message@ == message.message_view(),
            r.status == STATUS_CONFLICT,
    {
        Self::new(message, STATUS_CONFLICT)
    }

    pub fn unauthorized<M: IntoMessage>(message: M) -> (r: Self)
        ensures
            r.message@ == message.message_view(),
            r.status == STATUS_UNAUTHORIZED,
    {
        Self::new(message, STATUS_UNAUTHORIZED)
    }

    /// The status code that a response carries for this error: one of the four
    /// known codes, and 500 for any other.
    pub fn response_status(&self) -> (r: u16)
        ensures
            r == (if self.status == STATUS_BAD_REQUEST || self.status == STATUS_UNAUTHORIZED
                || self.status == STATUS_CONFLICT || self.status == STATUS_SERVER_ERROR {
                self.status
            } else {
                STATUS_SERVER_ERROR
            }),
    {
        match self.status {
            STATUS_BAD_REQUEST | STATUS_UNAUTHORIZED | STATUS_CONFLICT | STATUS_SERVER_ERROR => self.status,
            _ => STATUS_SERVER_ERROR,
        }
    }

    /// The message that a response carries for this error: its own for a known
    /// status code, the generic server error text for any other.
    pub fn response_message(&self) -> (r: String)
        ensures
            r@ == (if self.status == STATUS_BAD_REQUEST || self.status == STATUS_UNAUTHORIZED
                || self.status == STATUS_CONFLICT || self.status == STATUS_SERVER_ERROR {
                self.message@
            } else {
                message_of(ErrorMessage::ServerError)
            }),
    {
        match self.status {
            STATUS_BAD_REQUEST | STATUS_UNAUTHORIZED | STATUS_CONFLICT | STATUS_SERVER_ERROR => self.message.clone(),
            _ => ErrorMessage::ServerError.to_str(),
        }
    }

    /// A one-line description holding the message and the status code.
    pub fn to_string(&self) -> (r: String)
        ensures
            r@ == http_error_text(self.message@, self.status),
    {
        let mut s = "HttpError: message: ".to_owned();
        s.append(self.message.as_str());
        s.append(", status: ");
        push_decimal(&mut s, self.status as usize);
        s
    }
}

} // verus!
