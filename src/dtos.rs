use vstd::prelude::*;

use vstd::string::StrSliceExecFns;

verus! {

#[verifier::external_type_specification]
#[verifier::external_body]
pub struct ExValidationError(validator::ValidationError);

#[verifier::external_type_specification]
#[verifier::external_body]
pub struct ExValidationErrors(validator::ValidationErrors);

/// The fields that a set of validation errors names.
pub uninterp spec fn error_fields(errors: validator::ValidationErrors) -> Set<Seq<char>>;

/// Whether every field of `errors` holds a plain list of errors, the only kind
/// that `ValidationErrors::add` can extend.
pub uninterp spec fn field_lists_only(errors: validator::ValidationErrors) -> bool;

/// Relies on `validator::ValidationError::new` and `with_message`: an error of
/// this code carrying this message.
#[verifier::external_body]
fn validation_error(code: &'static str, message: &'static str) -> validator::ValidationError {
    validator::ValidationError::new(code).with_message(std::borrow::Cow::Borrowed(message))
}

/// Relies on `validator::ValidationErrors::new`: no field has an error.
#[verifier::external_body]
fn no_errors() -> (r: validator::ValidationErrors)
    ensures
        error_fields(r) == Set::<Seq<char>>::empty(),
        field_lists_only(r),
{
    validator::ValidationErrors::new()
}

/// Relies on `validator::ValidationErrors::add`: the error is recorded under
/// `field` as a plain list entry. `add` panics when the field already holds a
/// nested kind, which `field_lists_only` rules out.
#[verifier::external_body]
fn add_error(errors: &mut validator::ValidationErrors, field: &'static str, error: validator::ValidationError)
    requires
        field_lists_only(*old(errors)),
    ensures
        error_fields(*final(errors)) == error_fields(*old(errors)).insert(field@),
        field_lists_only(*final(errors)),
{
    errors.add(field, error)
}

/// Bounds, in characters, on a new password.
pub const MIN_NEW_PASSWORD_CHARS: usize = 5;

pub const MAX_NEW_PASSWORD_CHARS: usize = 20;

/// A student identifier is exactly seven ASCII digits.
pub open spec fn is_student_id(id: Seq<char>) -> bool {
    id.len() == 7 && forall|i: int| 0 <= i < id.len() ==> '0' <= #[trigger] id[i] <= '9'
}

pub open spec fn new_password_ok(password: Seq<char>) -> bool {
    MIN_NEW_PASSWORD_CHARS <= password.len() <= MAX_NEW_PASSWORD_CHARS
}

/// Checks that `id` is exactly seven ASCII digits, with no surrounding space.
pub fn validate_student_id(id: &str) -> (r: Result<(), validator::ValidationError>)
    ensures
        r is Ok <==> is_student_id(id@),
{
    if id.unicode_len() != 7 {
        return Err(validation_error("invalid_student_id", "Id must be exactly 7 numbers"));
    }
    let mut i: usize = 0;
    while i < 7
        invariant
            id@.len() == 7,
            i <= 7,
            forall|k: int| 0 <= k < i ==> '0' <= #[trigger] id@[k] <= '9',
        decreases 7 - i,
    {
        let c = id.get_char(i);
        if !('0' <= c && c <= '9') {
            return Err(validation_error("invalid_student_id", "Id must be exactly 7 numbers"));
        }
        i = i + 1;
    }
    Ok(())
}

/// Checks a new password's length in characters.
fn new_password_length_ok(password: &str) -> (r: bool)
    ensures
        r == new_password_ok(password@),
{
    let n = password.unicode_len();
    MIN_NEW_PASSWORD_CHARS <= n && n <= MAX_NEW_PASSWORD_CHARS
}

/// A student identifier as it arrives in a request.
#[derive(Debug, Clone, Default)]
pub struct StudentId(pub String);

impl core::ops::Deref for StudentId {
    type Target = str;

    fn deref(&self) -> &str {
        self.0.as_str()
    }
}

/// The fields of a new-password form that fail: the password's length, and
/// the confirmation when it differs.
pub open spec fn new_password_failures(password: Seq<char>, confirmation: Seq<char>) -> Set<Seq<char>> {
    (if new_password_ok(password) { Set::empty() } else { set!["password"@] })
        + (if confirmation == password { Set::empty() } else { set!["password_confirmation"@] })
}

pub open spec fn id_failures(id: Seq<char>) -> Set<Seq<char>> {
    if is_student_id(id) { Set::empty() } else { set!["id"@] }
}

/// The result of validating a form whose failing fields are `failures`.
pub open spec fn validated(r: Result<(), validator::ValidationErrors>, failures: Set<Seq<char>>) -> bool {
    match r {
        Ok(()) => failures.is_empty(),
        Err(e) => !failures.is_empty() && error_fields(e) == failures,
    }
}

/// Collects the errors of a form with an optional identifier and an optional
/// new password with its confirmation.
fn collect(id: Option<&str>, password: Option<(&str, &str)>) -> (r: Result<(), validator::ValidationErrors>)
    ensures
        validated(
            r,
            (match id { Some(i) => id_failures(i@), None => Set::empty() }) + (match password {
                Some((p, c)) => new_password_failures(p@, c@),
                None => Set::empty(),
            }),
        ),
{
    let mut errors = no_errors();
    let mut any = false;
    let ghost mut failures: Set<Seq<char>> = Set::empty();
    if let Some(i) = id {
        if validate_student_id(i).is_err() {
            add_error(&mut errors, "id", validation_error("invalid_student_id", "Id must be exactly 7 numbers"));
            any = true;
            proof { failures = failures.insert("id"@); }
        }
        assert(failures =~= id_failures(i@));
    }
    let ghost id_part = failures;
    if let Some((p, c)) = password {
        if !new_password_length_ok(p) {
            add_error(&mut errors, "password", validation_error("length", "Password must be between 5 and 20 characters"));
            any = true;
            proof { failures = failures.insert("password"@); }
        }
        if c.to_owned() != p.to_owned() {
            add_error(&mut errors, "password_confirmation", validation_error("must_match", "Passwords do not match"));
            any = true;
            proof { failures = failures.insert("password_confirmation"@); }
        }
        assert(failures =~= id_part + new_password_failures(p@, c@));
    }
    assert(failures =~= (match id { Some(i) => id_failures(i@), None => Set::empty() }) + (match password {
        Some((p, c)) => new_password_failures(p@, c@),
        None => Set::empty(),
    }));
    assert(any == !failures.is_empty()) by {
        if !any {
            assert(failures =~= Set::empty());
        } else {
            assert(failures.len() > 0 || failures.contains("id"@) || failures.contains("password"@) || failures.contains("password_confirmation"@));
        }
    }
    if any {
        Err(errors)
    } else {
        Ok(())
    }
}

/// The body of a success response.
#[derive(Debug, Clone)]
pub struct Response {
    pub status: &'static str,
    pub message: String,
}

/// A row of a student's profile.
#[derive(Debug, Clone)]
pub struct UserProfileRowView {
    pub id: String,
    pub profile_image_name: Option<String>,
    pub first_name: Option<String>,
    pub last_name: Option<String>,
    pub personal_email: Option<String>,
    pub course_name: Option<String>,
    pub description: Option<String>,
}

/// A request naming a student only.
#[derive(Debug, Clone, Default)]
pub struct AuthDto {
    pub id: StudentId,
}

impl AuthDto {
    pub fn validate(&self) -> (r: Result<(), validator::ValidationErrors>)
        ensures
            validated(r, id_failures(self.id.0@)),
    {
        let r = collect(Some(self.id.0.as_str()), None);
        assert(id_failures(self.id.0@) + Set::empty() =~= id_failures(self.id.0@));
        r
    }
}

#[derive(Debug, Clone, Default)]
pub struct LoginUserDto {
    pub id: StudentId,
    pub password: String,
}

impl LoginUserDto {
    /// Only the identifier is checked.
    pub fn validate(&self) -> (r: Result<(), validator::ValidationErrors>)
        ensures
            validated(r, id_failures(self.id.0@)),
    {
        let r = collect(Some(self.id.0.as_str()), None);
        assert(id_failures(self.id.0@) + Set::empty() =~= id_failures(self.id.0@));
        r
    }
}

#[derive(Debug, Clone, Default)]
pub struct RegisterUserDto {
    pub id: StudentId,
    pub password: String,
    pub password_confirmation: String,
}

impl RegisterUserDto {
    pub fn validate(&self) -> (r: Result<(), validator::ValidationErrors>)
        ensures
            validated(r, id_failures(self.id.0@) + new_password_failures(self.password@, self.password_confirmation@)),
    {
        collect(Some(self.id.0.as_str()), Some((self.password.as_str(), self.password_confirmation.as_str())))
    }
}

#[derive(Debug, Clone, Default)]
pub struct GetResetPasswordDto {
    pub id: StudentId,
}

impl GetResetPasswordDto {
    pub fn validate(&self) -> (r: Result<(), validator::ValidationErrors>)
        ensures
            validated(r, id_failures(self.id.0@)),
    {
        let r = collect(Some(self.id.0.as_str()), None);
        assert(id_failures(self.id.0@) + Set::empty() =~= id_failures(self.id.0@));
        r
    }
}

#[derive(Debug, Clone, Default)]
pub struct ResetPasswordDto {
    pub token: u128,
    pub password: String,
    pub password_confirmation: String,
}

impl ResetPasswordDto {
    pub fn validate(&self) -> (r: Result<(), validator::ValidationErrors>)
        ensures
            validated(r, new_password_failures(self.password@, self.password_confirmation@)),
    {
        let r = collect(None, Some((self.password.as_str(), self.password_confirmation.as_str())));
        assert(Set::empty() + new_password_failures(self.password@, self.password_confirmation@)
            =~= new_password_failures(self.password@, self.password_confirmation@));
        r
    }
}

} // verus!
