use vstd::prelude::*;

use crate::config::Config;
use crate::errors::ErrorMessage;
use crate::password::{compare_outcome, has_phc_prefix, is_hash_of, length_error, PasswordHasherService};
use crate::sources::{fresh_u128, unix_now};
use crate::store::{
    account_verified_in, consume_reset_step, holds_live, lemma_create_account_wf, lemma_issue_retires_held_token, lemma_issue_verification_wf, holds, live_verification_index,
    store_wf, consume_verification_step, create_account_step, has_id,
    has_live_reset, index_of, issue_reset_step, issue_verification_step, AccountView, AuthRepo, StoreError,
    TOKEN_TTL_SECS,
};
use crate::token::{create_token_at, expiry_of, issued_by};

verus! {

/// Which message a notice is.
#[derive(Debug, Clone, Copy, PartialEq, Eq)]
pub enum NoticeKind {
    Verification,
    PasswordReset,
}

/// A message handed to the notifier.
#[derive(Debug, Clone)]
pub struct Notice {
    pub kind: NoticeKind,
    pub student_id: String,
    pub token: u128,
}

pub struct NoticeView {
    pub kind: NoticeKind,
    pub student_id: Seq<char>,
    pub token: u128,
}

impl View for Notice {
    type V = NoticeView;

    open spec fn view(&self) -> NoticeView {
        NoticeView { kind: self.kind, student_id: self.student_id@, token: self.token }
    }
}

pub open spec fn notice(kind: NoticeKind, student_id: Seq<char>, token: u128) -> NoticeView {
    NoticeView { kind, student_id, token }
}

/// Sends the messages that carry one-time tokens to an account's owner, and
/// keeps a record of what it sent.
pub trait Notifier {
    /// The messages sent so far, oldest first.
    spec fn notices(&self) -> Seq<NoticeView>;

    /// On success the verification message for `student_id` with `token` is
    /// sent; on failure nothing is.
    fn send_verification_email(&mut self, student_id: &str, token: u128) -> (r: Result<(), ErrorMessage>)
        ensures
            r is Ok ==> final(self).notices() == old(self).notices().push(
                notice(NoticeKind::Verification, student_id@, token),
            ),
            r is Err ==> final(self).notices() == old(self).notices(),
    ;

    /// On success the reset message for `student_id` with `token` is sent; on
    /// failure nothing is.
    fn send_reset_password_email(&mut self, student_id: &str, token: u128) -> (r: Result<(), ErrorMessage>)
        ensures
            r is Ok ==> final(self).notices() == old(self).notices().push(
                notice(NoticeKind::PasswordReset, student_id@, token),
            ),
            r is Err ==> final(self).notices() == old(self).notices(),
    ;
}

/// A notifier that keeps every message, in order, for a sender to deliver.
pub struct Outbox {
    pub sent: Vec<Notice>,
}

impl Outbox {
    pub fn new() -> (r: Self)
        ensures
            r.notices() == Seq::<NoticeView>::empty(),
    {
        let r = Outbox { sent: Vec::new() };
        assert(r.notices() =~= Seq::<NoticeView>::empty());
        r
    }
}

impl Notifier for Outbox {
    open spec fn notices(&self) -> Seq<NoticeView> {
        self.sent@.map_values(|n: Notice| n@)
    }

    fn send_verification_email(&mut self, student_id: &str, token: u128) -> (r: Result<(), ErrorMessage>) {
        let ghost before = self.notices();
        self.sent.push(Notice { kind: NoticeKind::Verification, student_id: student_id.to_owned(), token });
        assert(self.notices() =~= before.push(notice(NoticeKind::Verification, student_id@, token)));
        Ok(())
    }

    fn send_reset_password_email(&mut self, student_id: &str, token: u128) -> (r: Result<(), ErrorMessage>) {
        let ghost before = self.notices();
        self.sent.push(Notice { kind: NoticeKind::PasswordReset, student_id: student_id.to_owned(), token });
        assert(self.notices() =~= before.push(notice(NoticeKind::PasswordReset, student_id@, token)));
        Ok(())
    }
}

/// The text of the error when a verification message could not be sent.
pub open spec fn verification_send_failure() -> Seq<char> {
    "Verification email failed to send"@
}

/// What the service's outcomes speak of: the accounts and the messages sent.
pub struct ServiceState {
    pub accounts: Seq<AccountView>,
    pub notices: Seq<NoticeView>,
}

pub open spec fn with_accounts(st: ServiceState, accounts: Seq<AccountView>) -> ServiceState {
    ServiceState { accounts, notices: st.notices }
}

/// The outcomes of issuing the verification token `fresh` for `id` and sending
/// it: a value already held by another account is a server error with nothing
/// changed; otherwise the token is stored, and the message with that very
/// value is sent, or its failure is reported with the token left live.
pub open spec fn verification_sent(
    before: ServiceState,
    after: ServiceState,
    id: Seq<char>,
    now: i64,
    fresh: u128,
    r: Result<(), ErrorMessage>,
) -> bool {
    let (accounts, issued) = issue_verification_step(before.accounts, id, fresh, now);
    match issued {
        Ok(_) => after.accounts == accounts && match r {
            Ok(()) => after.notices == before.notices.push(notice(NoticeKind::Verification, id, fresh)),
            Err(ErrorMessage::EmailSendingFailed(m)) => m@ == verification_send_failure() && after.notices
                == before.notices,
            Err(_) => false,
        },
        Err(_) => r == Err::<(), ErrorMessage>(ErrorMessage::ServerError) && after == before,
    }
}

/// What comparing `password` with the stored hash gives, length check included.
pub open spec fn checked_compare(password: &str, hash: Seq<char>) -> Result<bool, ErrorMessage> {
    match length_error(password) {
        Some(e) => Err(e),
        None => compare_outcome(password@, hash),
    }
}

/// The key that session tokens are signed with.
pub open spec fn signing_key(config: Config) -> Seq<u8> {
    vstd::utf8::encode_utf8(config.jwt_secret@)
}

/// Whether a session issued at `now` under `config` has an expiry that fits.
pub open spec fn expiry_fits(config: Config, now: i64) -> bool {
    i64::MIN <= expiry_of(now, config.jwt_max_age_mins) <= i64::MAX
}

/// Registering `student_id` with `password` at `now`, `fresh` being the value
/// for its verification token: a refused password or a taken identifier
/// changes nothing; otherwise the account is created, unverified, with a hash
/// of the password, and its verification token is issued and sent.
pub open spec fn register_outcome(
    before: ServiceState,
    after: ServiceState,
    student_id: Seq<char>,
    password: &str,
    now: i64,
    fresh: u128,
    r: Result<(), ErrorMessage>,
) -> bool {
    match length_error(password) {
        Some(e) => r == Err::<(), ErrorMessage>(e) && after == before,
        None => if has_id(before.accounts, student_id) {
            r == Err::<(), ErrorMessage>(ErrorMessage::UserAlreadyExists) && after == before
        } else {
            exists|h: Seq<char>|
                is_hash_of(password@, h) && has_phc_prefix(h) && #[trigger] verification_sent(
                    with_accounts(before, create_account_step(before.accounts, student_id, h).0),
                    after,
                    student_id,
                    now,
                    fresh,
                    r,
                )
        },
    }
}

/// Logging in at `now`: an unknown identifier and a wrong password are both
/// `WrongCredentials` with nothing changed or sent; an unverified account
/// gets the fresh verification token `fresh` and `UserNotVerified`; a match
/// yields a session token signed with the configured key.
pub open spec fn login_outcome(
    before: ServiceState,
    after: ServiceState,
    config: Config,
    student_id: Seq<char>,
    password: &str,
    now: i64,
    fresh: u128,
    r: Result<String, ErrorMessage>,
) -> bool {
    if !has_id(before.accounts, student_id) {
        r == Err::<String, ErrorMessage>(ErrorMessage::WrongCredentials) && after == before
    } else if !before.accounts[index_of(before.accounts, student_id)].verified {
        match r {
            Err(ErrorMessage::UserNotVerified) => verification_sent(before, after, student_id, now, fresh, Ok(())),
            Err(e) => verification_sent(before, after, student_id, now, fresh, Err(e)),
            Ok(_) => false,
        }
    } else {
        after == before && match checked_compare(
            password,
            before.accounts[index_of(before.accounts, student_id)].password,
        ) {
            Ok(true) => if student_id.len() > 0 && expiry_fits(config, now) {
                (r matches Ok(t) && issued_by(
                    t@,
                    student_id,
                    signing_key(config),
                    now,
                    expiry_of(now, config.jwt_max_age_mins) as i64,
                ))
            } else {
                r == Err::<String, ErrorMessage>(ErrorMessage::ServerError)
            },
            Ok(false) => r == Err::<String, ErrorMessage>(ErrorMessage::WrongCredentials),
            Err(_) => r == Err::<String, ErrorMessage>(ErrorMessage::ServerError),
        }
    }
}

/// Consuming the verification token `token` at `now`; nothing is sent.
pub open spec fn validation_outcome(before: ServiceState, after: ServiceState, token: u128, now: i64, r: Result<(), ErrorMessage>) -> bool {
    &&& after.notices == before.notices
    &&& after.accounts == consume_verification_step(before.accounts, token, now).0
    &&& r is Ok <==> consume_verification_step(before.accounts, token, now).1 is Ok
    &&& r is Err ==> r == Err::<(), ErrorMessage>(ErrorMessage::VerifyTokenDoesNotExist)
}

/// Requesting a reset for `student_id` at `now`, `fresh` being the value for
/// the reset token: an unknown or unverified account changes nothing and
/// nothing is sent; a verified one gets the token, and the message with that
/// value is sent.
pub open spec fn reset_request_result(
    before: ServiceState,
    after: ServiceState,
    student_id: Seq<char>,
    now: i64,
    fresh: u128,
    r: Result<(), ErrorMessage>,
) -> bool {
    if !account_verified_in(before.accounts, student_id) {
        r == Err::<(), ErrorMessage>(ErrorMessage::UserNoLongerExists) && after == before
    } else {
        let (accounts, issued) = issue_reset_step(before.accounts, student_id, fresh, now);
        match issued {
            Err(_) => r == Err::<(), ErrorMessage>(ErrorMessage::ServerError) && after == before,
            Ok(_) => after.accounts == accounts && match r {
                Ok(()) => after.notices == before.notices.push(notice(NoticeKind::PasswordReset, student_id, fresh)),
                Err(ErrorMessage::ServerError) => after.notices == before.notices,
                _ => false,
            },
        }
    }
}

/// Resetting the password through `token` at `now`: with a live token the
/// token goes and the account takes a hash of the new password; without one
/// nothing changes. Nothing is sent.
pub open spec fn password_reset_outcome(
    before: ServiceState,
    after: ServiceState,
    token: u128,
    password: &str,
    now: i64,
    r: Result<(), ErrorMessage>,
) -> bool {
    match length_error(password) {
        Some(e) => r == Err::<(), ErrorMessage>(e) && after == before,
        None => if has_live_reset(before.accounts, token, now) {
            r is Ok && after.notices == before.notices && exists|h: Seq<char>|
                is_hash_of(password@, h) && has_phc_prefix(h) && #[trigger] consume_reset_step(
                    before.accounts,
                    token,
                    h,
                    now,
                ) == (after.accounts, Ok::<(), StoreError>(()))
        } else {
            r == Err::<(), ErrorMessage>(ErrorMessage::UserNoLongerExists) && after == before
        },
    }
}

/// After a successful registration, the message sent carries the token that
/// was stored, and that token verifies the account while it is live.
pub proof fn lemma_register_then_verify(
    before: ServiceState,
    after: ServiceState,
    student_id: Seq<char>,
    password: &str,
    issued: i64,
    fresh: u128,
    now: i64,
)
    requires
        store_wf(before.accounts),
        issued <= i64::MAX - TOKEN_TTL_SECS,
        register_outcome(before, after, student_id, password, issued, fresh, Ok(())),
        now < issued + TOKEN_TTL_SECS,
    ensures
        after.notices == before.notices.push(notice(NoticeKind::Verification, student_id, fresh)),
        !account_verified_in(after.accounts, student_id),
        consume_verification_step(after.accounts, fresh, now).1 == Ok::<Seq<char>, StoreError>(student_id),
        account_verified_in(consume_verification_step(after.accounts, fresh, now).0, student_id),
{
    let h = choose|h: Seq<char>|
        is_hash_of(password@, h) && has_phc_prefix(h) && #[trigger] verification_sent(
            with_accounts(before, create_account_step(before.accounts, student_id, h).0),
            after,
            student_id,
            issued,
            fresh,
            Ok(()),
        );
    let s0 = create_account_step(before.accounts, student_id, h).0;
    lemma_create_account_wf(before.accounts, student_id, h);
    lemma_issue_verification_wf(s0, student_id, fresh, issued);
    let i = before.accounts.len() as int;
    assert(s0[i].id == student_id);
    assert(index_of(s0, student_id) == i);
    let s1 = after.accounts;
    assert(s1[i].id == student_id && !s1[i].verified);
    assert(index_of(s1, student_id) == i);
    assert(holds_live(s1[i].verification, fresh, now));
    let k = live_verification_index(s1, fresh, now);
    assert(k == i);
    let s2 = consume_verification_step(s1, fresh, now).0;
    assert(s2[i].id == student_id && s2[i].verified);
    assert(index_of(s2, student_id) == i);
}

/// A login on an unverified account that answers `UserNotVerified` has sent
/// the fresh token, retired the one the account held, and the fresh one
/// verifies the account while it is live.
pub proof fn lemma_unverified_login_reissues(
    before: ServiceState,
    after: ServiceState,
    config: Config,
    student_id: Seq<char>,
    password: &str,
    issued: i64,
    held: u128,
    fresh: u128,
    now: i64,
)
    requires
        store_wf(before.accounts),
        issued <= i64::MAX - TOKEN_TTL_SECS,
        has_id(before.accounts, student_id),
        !before.accounts[index_of(before.accounts, student_id)].verified,
        holds(before.accounts[index_of(before.accounts, student_id)].verification, held),
        held != fresh,
        login_outcome(before, after, config, student_id, password, issued, fresh, Err(ErrorMessage::UserNotVerified)),
        now < issued + TOKEN_TTL_SECS,
    ensures
        after.notices == before.notices.push(notice(NoticeKind::Verification, student_id, fresh)),
        consume_verification_step(after.accounts, held, now).1 == Err::<Seq<char>, StoreError>(StoreError::NotFound),
        consume_verification_step(after.accounts, fresh, now).1 == Ok::<Seq<char>, StoreError>(student_id),
{
    lemma_issue_retires_held_token(before.accounts, student_id, held, fresh, issued, now);
    lemma_issue_verification_wf(before.accounts, student_id, fresh, issued);
    let i = index_of(before.accounts, student_id);
    let s1 = after.accounts;
    assert(holds_live(s1[i].verification, fresh, now));
    let k = live_verification_index(s1, fresh, now);
    assert(k == i);
}

/// Registration, login, email verification and password reset over a
/// credential store and a notifier.
pub struct AuthService<N: Notifier> {
    pub auth_repo: AuthRepo,
    pub email_service: N,
    pub config: Config,
}

impl<N: Notifier> AuthService<N> {
    pub open spec fn wf(&self) -> bool {
        self.auth_repo.wf()
    }

    pub open spec fn state(&self) -> ServiceState {
        ServiceState { accounts: self.auth_repo@, notices: self.email_service.notices() }
    }

    pub fn new(auth_repo: AuthRepo, email_service: N, config: Config) -> (r: Self)
        requires
            auth_repo.wf(),
        ensures
            r.wf(),
            r.auth_repo@ == auth_repo@,
            r.email_service.notices() == email_service.notices(),
            r.config == config,
    {
        AuthService { auth_repo, email_service, config }
    }

    /// Issues the verification token `fresh` for `student_id` and sends it.
    fn create_verification_token_and_send_email(&mut self, student_id: &str, now: i64, fresh: u128) -> (r: Result<(), ErrorMessage>)
        requires
            old(self).wf(),
            now <= i64::MAX - TOKEN_TTL_SECS,
        ensures
            final(self).wf(),
            final(self).config == old(self).config,
            verification_sent(old(self).state(), final(self).state(), student_id@, now, fresh, r),
    {
        match self.auth_repo.create_user_verification(student_id, fresh, now) {
            Err(_) => Err(ErrorMessage::ServerError),
            Ok(token) => match self.email_service.send_verification_email(student_id, token) {
                Ok(()) => Ok(()),
                Err(_) => Err(ErrorMessage::EmailSendingFailed("Verification email failed to send".to_owned())),
            },
        }
    }

    /// Registers `student_id` with `password`, then issues the verification
    /// token `fresh` and sends it. A taken identifier is `UserAlreadyExists`;
    /// a failure after the account was created leaves it there, unverified.
    pub fn register_at(&mut self, student_id: &str, password: &str, now: i64, fresh: u128) -> (r: Result<(), ErrorMessage>)
        requires
            old(self).wf(),
            now <= i64::MAX - TOKEN_TTL_SECS,
        ensures
            final(self).wf(),
            final(self).config == old(self).config,
            register_outcome(old(self).state(), final(self).state(), student_id@, password, now, fresh, r),
    {
        let hasher = PasswordHasherService::new();
        let hashed_password = match hasher.hash(password) {
            Ok(h) => h,
            Err(e) => return Err(e),
        };
        let ghost before = self.state();
        match self.auth_repo.create_user(student_id, hashed_password.as_str()) {
            Err(_) => Err(ErrorMessage::UserAlreadyExists),
            Ok(()) => {
                let r = self.create_verification_token_and_send_email(student_id, now, fresh);
                assert(verification_sent(
                    with_accounts(before, create_account_step(before.accounts, student_id@, hashed_password@).0),
                    self.state(),
                    student_id@,
                    now,
                    fresh,
                    r,
                ));
                r
            },
        }
    }

    /// Logs `student_id` in: a session token on a password match. An unknown
    /// identifier and a wrong password are the same `WrongCredentials`; an
    /// unverified account gets the verification token `fresh` and
    /// `UserNotVerified`.
    pub fn login_at(&mut self, student_id: &str, password: &str, now: i64, fresh: u128) -> (r: Result<String, ErrorMessage>)
        requires
            old(self).wf(),
            now <= i64::MAX - TOKEN_TTL_SECS,
        ensures
            final(self).wf(),
            final(self).config == old(self).config,
            login_outcome(old(self).state(), final(self).state(), old(self).config, student_id@, password, now, fresh, r),
    {
        let user = match self.auth_repo.get_user_by_id(student_id) {
            Some(u) => u,
            None => return Err(ErrorMessage::WrongCredentials),
        };
        if !user.verified {
            return match self.create_verification_token_and_send_email(student_id, now, fresh) {
                Ok(()) => Err(ErrorMessage::UserNotVerified),
                Err(e) => Err(e),
            };
        }
        let hasher = PasswordHasherService::new();
        let password_matches = match hasher.compare(password, user.password.as_str()) {
            Ok(m) => m,
            Err(_) => return Err(ErrorMessage::ServerError),
        };
        if password_matches {
            return match create_token_at(student_id, self.config.jwt_secret.as_str().as_bytes(), self.config.jwt_max_age_mins, now) {
                Ok(t) => Ok(t),
                Err(_) => Err(ErrorMessage::ServerError),
            };
        }
        Err(ErrorMessage::WrongCredentials)
    }

    /// Consumes the verification token `token`, verifying its account.
    pub fn validate_user_at(&mut self, token: u128, now: i64) -> (r: Result<(), ErrorMessage>)
        requires
            old(self).wf(),
        ensures
            final(self).wf(),
            final(self).config == old(self).config,
            validation_outcome(old(self).state(), final(self).state(), token, now, r),
    {
        match self.auth_repo.validate_user(token, now) {
            Ok(_) => Ok(()),
            Err(_) => Err(ErrorMessage::VerifyTokenDoesNotExist),
        }
    }

    /// Issues the reset token `fresh` for the verified account `student_id`
    /// and sends it. An unknown or unverified account is `UserNoLongerExists`,
    /// with nothing sent.
    pub fn create_user_reset_password_at(&mut self, student_id: &str, now: i64, fresh: u128) -> (r: Result<(), ErrorMessage>)
        requires
            old(self).wf(),
            now <= i64::MAX - TOKEN_TTL_SECS,
        ensures
            final(self).wf(),
            final(self).config == old(self).config,
            reset_request_result(old(self).state(), final(self).state(), student_id@, now, fresh, r),
    {
        match self.auth_repo.create_user_reset_password(student_id, fresh, now) {
            Err(StoreError::NotFound) => Err(ErrorMessage::UserNoLongerExists),
            Err(StoreError::UniqueViolation) => Err(ErrorMessage::ServerError),
            Ok(token) => match self.email_service.send_reset_password_email(student_id, token) {
                Ok(()) => Ok(()),
                Err(_) => Err(ErrorMessage::ServerError),
            },
        }
    }

    /// Whether `token` is a live reset token.
    pub fn user_reset_password_exists_at(&self, token: u128, now: i64) -> (r: Result<bool, ErrorMessage>)
        requires
            self.wf(),
        ensures
            r == Ok::<bool, ErrorMessage>(has_live_reset(self.auth_repo@, token, now)),
    {
        Ok(self.auth_repo.user_reset_password_exists(token, now))
    }

    /// Sets a new password through the reset token `token`, which is used up.
    pub fn reset_user_password_at(&mut self, token: u128, password: &str, now: i64) -> (r: Result<(), ErrorMessage>)
        requires
            old(self).wf(),
        ensures
            final(self).wf(),
            final(self).config == old(self).config,
            password_reset_outcome(old(self).state(), final(self).state(), token, password, now, r),
    {
        let hasher = PasswordHasherService::new();
        let hashed_password = match hasher.hash(password) {
            Ok(h) => h,
            Err(e) => return Err(e),
        };
        let ghost before = self.auth_repo@;
        match self.auth_repo.update_user_password(token, hashed_password.as_str(), now) {
            Ok(()) => {
                assert(consume_reset_step(before, token, hashed_password@, now) == (self.auth_repo@, Ok::<(), StoreError>(())));
                Ok(())
            },
            Err(_) => Err(ErrorMessage::UserNoLongerExists),
        }
    }

    /// The current time, if tokens issued now can still carry an expiry.
    fn clock() -> (r: Option<i64>)
        ensures
            r matches Some(now) ==> now <= i64::MAX - TOKEN_TTL_SECS,
    {
        let now = unix_now();
        if now > i64::MAX - TOKEN_TTL_SECS {
            None
        } else {
            Some(now)
        }
    }

    /// `register_at` at the current time, with a random token value.
    pub fn register(&mut self, student_id: &str, password: &str) -> (r: Result<(), ErrorMessage>)
        requires
            old(self).wf(),
        ensures
            final(self).wf(),
            final(self).config == old(self).config,
            (r == Err::<(), ErrorMessage>(ErrorMessage::ServerError) && final(self).state() == old(self).state())
                || exists|now: i64, fresh: u128|
                #[trigger] register_outcome(old(self).state(), final(self).state(), student_id@, password, now, fresh, r),
    {
        match Self::clock() {
            Some(now) => self.register_at(student_id, password, now, fresh_u128()),
            None => Err(ErrorMessage::ServerError),
        }
    }

    /// `login_at` at the current time, with a random token value.
    pub fn login(&mut self, student_id: &str, password: &str) -> (r: Result<String, ErrorMessage>)
        requires
            old(self).wf(),
        ensures
            final(self).wf(),
            final(self).config == old(self).config,
            (r == Err::<String, ErrorMessage>(ErrorMessage::ServerError) && final(self).state() == old(self).state())
                || exists|now: i64, fresh: u128|
                #[trigger] login_outcome(old(self).state(), final(self).state(), old(self).config, student_id@, password, now, fresh, r),
    {
        match Self::clock() {
            Some(now) => self.login_at(student_id, password, now, fresh_u128()),
            None => Err(ErrorMessage::ServerError),
        }
    }

    /// `validate_user_at` at the current time.
    pub fn validate_user(&mut self, token: u128) -> (r: Result<(), ErrorMessage>)
        requires
            old(self).wf(),
        ensures
            final(self).wf(),
            final(self).config == old(self).config,
            exists|now: i64| #[trigger] validation_outcome(old(self).state(), final(self).state(), token, now, r),
    {
        self.validate_user_at(token, unix_now())
    }

    /// `create_user_reset_password_at` at the current time, with a random
    /// token value.
    pub fn create_user_reset_password(&mut self, student_id: &str) -> (r: Result<(), ErrorMessage>)
        requires
            old(self).wf(),
        ensures
            final(self).wf(),
            final(self).config == old(self).config,
            (r == Err::<(), ErrorMessage>(ErrorMessage::ServerError) && final(self).state() == old(self).state())
                || exists|now: i64, fresh: u128|
                #[trigger] reset_request_result(old(self).state(), final(self).state(), student_id@, now, fresh, r),
    {
        match Self::clock() {
            Some(now) => self.create_user_reset_password_at(student_id, now, fresh_u128()),
            None => Err(ErrorMessage::ServerError),
        }
    }

    /// `user_reset_password_exists_at` at the current time.
    pub fn user_reset_password_exists(&self, token: u128) -> (r: Result<bool, ErrorMessage>)
        requires
            self.wf(),
        ensures
            exists|now: i64| r == Ok::<bool, ErrorMessage>(#[trigger] has_live_reset(self.auth_repo@, token, now)),
    {
        self.user_reset_password_exists_at(token, unix_now())
    }

    /// `reset_user_password_at` at the current time.
    pub fn reset_user_password(&mut self, token: u128, password: &str) -> (r: Result<(), ErrorMessage>)
        requires
            old(self).wf(),
        ensures
            final(self).wf(),
            final(self).config == old(self).config,
            exists|now: i64| #[trigger] password_reset_outcome(old(self).state(), final(self).state(), token, password, now, r),
    {
        self.reset_user_password_at(token, password, unix_now())
    }
}

} // verus!
