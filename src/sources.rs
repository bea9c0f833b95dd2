use vstd::prelude::*;

verus! {

/// Relies on `uuid::Uuid::new_v4`: 128 bits drawn from the operating system's
/// random source. Nothing is known of the value.
#[verifier::external_body]
pub fn fresh_u128() -> (r: u128) {
    uuid::Uuid::new_v4().as_u128()
}

/// Relies on `chrono::Utc::now` and `DateTime::timestamp`: the current time in
/// whole seconds since the Unix epoch. Nothing is known of the value.
#[verifier::external_body]
pub fn unix_now() -> (r: i64) {
    chrono::Utc::now().timestamp()
}

} // verus!
