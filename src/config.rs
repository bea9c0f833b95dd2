use vstd::prelude::*;

verus! {

/// Settings of the outbound mail service.
#[derive(Clone)]
pub struct PostMarkConfig {
    pub mail_from_email: String,
    pub server_token: String,
}

/// Process-wide settings, read once at startup and never changed.
#[derive(Clone)]
pub struct Config {
    pub database_url: String,
    pub jwt_secret: String,
    pub jwt_max_age_mins: i64,
    pub port: u16,
    pub post_mark_config: PostMarkConfig,
    pub auth_cookie_name: String,
    pub base_url: String,
    pub is_prod: bool,
}

} // verus!
