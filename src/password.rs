use vstd::prelude::*;

use vstd::string::StrSliceExecFns;

use crate::errors::ErrorMessage;
use crate::sources::fresh_u128;

verus! {

/// Upper bound, in characters, on a password: it caps the cost of hashing.
pub const MAX_PASSWORD_LENGTH: usize = 64;

/// Whether `hash` parses as a PHC string.
pub uninterp spec fn phc_parses(hash: Seq<char>) -> bool;

/// Whether Argon2, with the algorithm, version, parameters and salt that the
/// PHC string `hash` names, maps `password` to the output that `hash` holds.
pub uninterp spec fn argon2_accepts(password: Seq<char>, hash: Seq<char>) -> bool;

/// The start of every PHC string that hashing gives: algorithm, version, then
/// the memory cost.
pub open spec fn phc_prefix() -> Seq<char> {
    "$argon2id$v=19$m="@
}

pub open spec fn has_phc_prefix(hash: Seq<char>) -> bool {
    phc_prefix().len() <= hash.len() && hash.subrange(0, phc_prefix().len() as int) == phc_prefix()
}

/// `hash` is a PHC string that `password` verifies against.
pub open spec fn is_hash_of(password: Seq<char>, hash: Seq<char>) -> bool {
    phc_parses(hash) && argon2_accepts(password, hash)
}

/// The length check that both hashing and comparing apply before any work:
/// `None` when the password may go on, else the error.
pub open spec fn length_error(password: &str) -> Option<ErrorMessage> {
    if password@.len() == 0 {
        Some(ErrorMessage::EmptyPassword)
    } else if password@.len() > MAX_PASSWORD_LENGTH {
        Some(ErrorMessage::ExceededMaxPasswordLength(MAX_PASSWORD_LENGTH))
    } else {
        None
    }
}

/// What `compare` returns for a password that passed the length check.
pub open spec fn compare_outcome(password: Seq<char>, hash: Seq<char>) -> Result<bool, ErrorMessage> {
    if !phc_parses(hash) {
        Err(ErrorMessage::InvalidHashFormat)
    } else {
        Ok(argon2_accepts(password, hash))
    }
}

/// Relies on argon2's `SaltString::encode_b64` and `PasswordHasher::hash_password`
/// with Argon2id, version 0x13 and default parameters: the PHC string returned
/// names them and the salt, so that verifying the same password against it
/// succeeds. A 16-byte salt always encodes, and with default parameters
/// hashing fails only for passwords over `u32::MAX` bytes, so it succeeds.
#[verifier::external_body]
fn argon2_hash(password: &str, salt: u128) -> (r: Result<String, ()>)
    requires
        password@.len() <= MAX_PASSWORD_LENGTH,
    ensures
        r is Ok,
        r matches Ok(h) ==> is_hash_of(password@, h@) && has_phc_prefix(h@),
{
    let salt = argon2::password_hash::SaltString::encode_b64(&salt.to_le_bytes()).map_err(|_| ())?;
    let argon2 = argon2::Argon2::new(argon2::Algorithm::Argon2id, argon2::Version::V0x13, argon2::Params::default());
    argon2::PasswordHasher::hash_password(&argon2, password.as_bytes(), &salt).map(|h| h.to_string()).map_err(|_| ())
}

/// Relies on argon2's `PasswordHash::new`, which parses the PHC string, and
/// `PasswordVerifier::verify_password`, which hashes the password again with
/// what the string names and compares the outputs. `None` when the string
/// does not parse.
#[verifier::external_body]
fn argon2_check(password: &str, hash: &str) -> (r: Option<bool>)
    ensures
        r is None <==> !phc_parses(hash@),
        r matches Some(ok) ==> ok == argon2_accepts(password@, hash@),
{
    let parsed = argon2::PasswordHash::new(hash).ok()?;
    Some(argon2::PasswordVerifier::verify_password(&argon2::Argon2::default(), password.as_bytes(), &parsed).is_ok())
}

/// Hashes and verifies passwords with Argon2id.
pub struct PasswordHasherService {}

impl PasswordHasherService {
    pub fn new() -> (r: Self) {
        PasswordHasherService {}
    }

    /// Hashes a password under a fresh random salt.
    pub fn hash(&self, password: &str) -> (r: Result<String, ErrorMessage>)
        ensures
            length_error(password) matches Some(e) ==> r == Err::<String, ErrorMessage>(e),
            length_error(password) is None ==> (r matches Ok(h) && is_hash_of(password@, h@) && has_phc_prefix(h@)),
    {
        if password.is_empty() {
            return Err(ErrorMessage::EmptyPassword);
        }
        if password.unicode_len() > MAX_PASSWORD_LENGTH {
            return Err(ErrorMessage::ExceededMaxPasswordLength(MAX_PASSWORD_LENGTH));
        }
        let salt = fresh_u128();
        match argon2_hash(password, salt) {
            Ok(h) => Ok(h),
            Err(_) => Err(ErrorMessage::HashingError),
        }
    }

    /// Checks a password against a stored PHC string. A mismatch is `Ok(false)`.
    pub fn compare(&self, password: &str, hashed_password: &str) -> (r: Result<bool, ErrorMessage>)
        ensures
            r == (match length_error(password) {
                Some(e) => Err(e),
                None => compare_outcome(password@, hashed_password@),
            }),
    {
        if password.is_empty() {
            return Err(ErrorMessage::EmptyPassword);
        }
        if password.unicode_len() > MAX_PASSWORD_LENGTH {
            return Err(ErrorMessage::ExceededMaxPasswordLength(MAX_PASSWORD_LENGTH));
        }
        match argon2_check(password, hashed_password) {
            None => Err(ErrorMessage::InvalidHashFormat),
            Some(matches) => Ok(matches),
        }
    }
}

/// A password of allowed length verifies against any hash that `hash` returned for it.
pub proof fn lemma_hash_then_compare(password: &str, hash: Seq<char>)
    requires
        length_error(password) is None,
        is_hash_of(password@, hash),
    ensures
        compare_outcome(password@, hash) == Ok::<bool, ErrorMessage>(true),
{
}

} // verus!
