use vstd::prelude::*;

verus! {

/// Lifetime of a verification or reset token: 15 minutes.
pub const TOKEN_TTL_SECS: i64 = 900;

/// A one-time token value and the second at which it stops being live.
#[derive(Debug, Clone, Copy, PartialEq, Eq)]
pub struct OneTimeToken {
    pub value: u128,
    pub expires_at: i64,
}

/// The outcomes of the store that callers tell apart.
#[derive(Debug, Clone, Copy, PartialEq, Eq)]
pub enum StoreError {
    /// No matching account, or no matching live token.
    NotFound,
    /// The identifier, or the token value, is already taken.
    UniqueViolation,
}

/// A stored account with its at most one verification token and at most one
/// reset token.
pub struct Account {
    pub id: String,
    pub password: String,
    pub verified: bool,
    pub verification: Option<OneTimeToken>,
    pub reset: Option<OneTimeToken>,
}

pub struct AccountView {
    pub id: Seq<char>,
    pub password: Seq<char>,
    pub verified: bool,
    pub verification: Option<OneTimeToken>,
    pub reset: Option<OneTimeToken>,
}

impl View for Account {
    type V = AccountView;

    open spec fn view(&self) -> AccountView {
        AccountView {
            id: self.id@,
            password: self.password@,
            verified: self.verified,
            verification: self.verification,
            reset: self.reset,
        }
    }
}

/// What a lookup hands out of an account.
pub struct AccountRecord {
    pub id: String,
    pub password: String,
    pub verified: bool,
}

pub open spec fn has_id(s: Seq<AccountView>, id: Seq<char>) -> bool {
    exists|i: int| 0 <= i < s.len() && (#[trigger] s[i]).id == id
}

pub open spec fn index_of(s: Seq<AccountView>, id: Seq<char>) -> int {
    choose|i: int| 0 <= i < s.len() && (#[trigger] s[i]).id == id
}

pub open spec fn holds(t: Option<OneTimeToken>, value: u128) -> bool {
    t matches Some(x) && x.value == value
}

pub open spec fn holds_live(t: Option<OneTimeToken>, value: u128, now: i64) -> bool {
    t matches Some(x) && x.value == value && x.expires_at > now
}

/// Identifiers are unique, and so are the values of the verification tokens
/// and those of the reset tokens.
pub open spec fn store_wf(s: Seq<AccountView>) -> bool {
    &&& forall|i: int, j: int|
        0 <= i < s.len() && 0 <= j < s.len() && (#[trigger] s[i]).id == (#[trigger] s[j]).id ==> i == j
    &&& forall|i: int, j: int|
        0 <= i < s.len() && 0 <= j < s.len() && (#[trigger] s[i]).verification is Some
            && (#[trigger] s[j]).verification is Some
            && s[i].verification->Some_0.value == s[j].verification->Some_0.value ==> i == j
    &&& forall|i: int, j: int|
        0 <= i < s.len() && 0 <= j < s.len() && (#[trigger] s[i]).reset is Some
            && (#[trigger] s[j]).reset is Some
            && s[i].reset->Some_0.value == s[j].reset->Some_0.value ==> i == j
}

pub open spec fn account_verified_in(s: Seq<AccountView>, id: Seq<char>) -> bool {
    has_id(s, id) && s[index_of(s, id)].verified
}

/// Registering `id` with `password`: a new unverified account without tokens.
pub open spec fn create_account_step(s: Seq<AccountView>, id: Seq<char>, password: Seq<char>) -> (Seq<AccountView>, Result<(), StoreError>) {
    if has_id(s, id) {
        (s, Err(StoreError::UniqueViolation))
    } else {
        (s.push(AccountView { id, password, verified: false, verification: None, reset: None }), Ok(()))
    }
}

pub open spec fn set_verification(a: AccountView, t: Option<OneTimeToken>) -> AccountView {
    AccountView { id: a.id, password: a.password, verified: a.verified, verification: t, reset: a.reset }
}

pub open spec fn set_reset(a: AccountView, t: Option<OneTimeToken>) -> AccountView {
    AccountView { id: a.id, password: a.password, verified: a.verified, verification: a.verification, reset: t }
}

/// Whether an account other than `id` holds a verification token of this value.
pub open spec fn verification_taken(s: Seq<AccountView>, id: Seq<char>, value: u128) -> bool {
    exists|j: int| 0 <= j < s.len() && (#[trigger] s[j]).id != id && holds(s[j].verification, value)
}

pub open spec fn reset_taken(s: Seq<AccountView>, id: Seq<char>, value: u128) -> bool {
    exists|j: int| 0 <= j < s.len() && (#[trigger] s[j]).id != id && holds(s[j].reset, value)
}

/// Issuing a verification token: every earlier one of the account goes, the
/// new one lives for the token lifetime.
pub open spec fn issue_verification_step(s: Seq<AccountView>, id: Seq<char>, value: u128, now: i64) -> (Seq<AccountView>, Result<u128, StoreError>) {
    if !has_id(s, id) {
        (s, Err(StoreError::NotFound))
    } else if verification_taken(s, id, value) {
        (s, Err(StoreError::UniqueViolation))
    } else {
        let i = index_of(s, id);
        let t = OneTimeToken { value, expires_at: (now + TOKEN_TTL_SECS) as i64 };
        (s.update(i, set_verification(s[i], Some(t))), Ok(value))
    }
}

/// Issuing a reset token: as for verification, for verified accounts only.
pub open spec fn issue_reset_step(s: Seq<AccountView>, id: Seq<char>, value: u128, now: i64) -> (Seq<AccountView>, Result<u128, StoreError>) {
    if !account_verified_in(s, id) {
        (s, Err(StoreError::NotFound))
    } else if reset_taken(s, id, value) {
        (s, Err(StoreError::UniqueViolation))
    } else {
        let i = index_of(s, id);
        let t = OneTimeToken { value, expires_at: (now + TOKEN_TTL_SECS) as i64 };
        (s.update(i, set_reset(s[i], Some(t))), Ok(value))
    }
}

pub open spec fn has_live_verification(s: Seq<AccountView>, value: u128, now: i64) -> bool {
    exists|i: int| 0 <= i < s.len() && holds_live((#[trigger] s[i]).verification, value, now)
}

pub open spec fn live_verification_index(s: Seq<AccountView>, value: u128, now: i64) -> int {
    choose|i: int| 0 <= i < s.len() && holds_live((#[trigger] s[i]).verification, value, now)
}

pub open spec fn has_live_reset(s: Seq<AccountView>, value: u128, now: i64) -> bool {
    exists|i: int| 0 <= i < s.len() && holds_live((#[trigger] s[i]).reset, value, now)
}

pub open spec fn live_reset_index(s: Seq<AccountView>, value: u128, now: i64) -> int {
    choose|i: int| 0 <= i < s.len() && holds_live((#[trigger] s[i]).reset, value, now)
}

/// Consuming a verification token: the live token goes and its account is
/// verified, in one step; without a live token nothing changes.
pub open spec fn consume_verification_step(s: Seq<AccountView>, value: u128, now: i64) -> (Seq<AccountView>, Result<Seq<char>, StoreError>) {
    if has_live_verification(s, value, now) {
        let i = live_verification_index(s, value, now);
        let a = s[i];
        (s.update(i, AccountView { id: a.id, password: a.password, verified: true, verification: None, reset: a.reset }), Ok(a.id))
    } else {
        (s, Err(StoreError::NotFound))
    }
}

/// Consuming a reset token: the live token goes and its account takes the new
/// password hash, in one step; without a live token nothing changes.
pub open spec fn consume_reset_step(s: Seq<AccountView>, value: u128, password: Seq<char>, now: i64) -> (Seq<AccountView>, Result<(), StoreError>) {
    if has_live_reset(s, value, now) {
        let i = live_reset_index(s, value, now);
        let a = s[i];
        (s.update(i, AccountView { id: a.id, password, verified: a.verified, verification: a.verification, reset: None }), Ok(()))
    } else {
        (s, Err(StoreError::NotFound))
    }
}

/// Issuing a verification token keeps the store well formed.
pub proof fn lemma_issue_verification_wf(s: Seq<AccountView>, id: Seq<char>, value: u128, now: i64)
    requires
        store_wf(s),
    ensures
        store_wf(issue_verification_step(s, id, value, now).0),
{
    if has_id(s, id) && !verification_taken(s, id, value) {
        let i = index_of(s, id);
        let s1 = issue_verification_step(s, id, value, now).0;
        assert forall|a: int, b: int|
            0 <= a < s1.len() && 0 <= b < s1.len() && (#[trigger] s1[a]).verification is Some
                && (#[trigger] s1[b]).verification is Some
                && s1[a].verification->Some_0.value == s1[b].verification->Some_0.value
            implies a == b by {
            if a != i && b != i {
                assert(s[a] == s1[a] && s[b] == s1[b]);
            } else if a != i {
                assert(s[a].id != s[i].id);
                assert(holds(s[a].verification, value));
            } else if b != i {
                assert(s[b].id != s[i].id);
                assert(holds(s[b].verification, value));
            }
        }
        assert forall|a: int, b: int|
            0 <= a < s1.len() && 0 <= b < s1.len() && (#[trigger] s1[a]).id == (#[trigger] s1[b]).id
            implies a == b by {
            assert(s[a].id == s1[a].id && s[b].id == s1[b].id);
        }
        assert forall|a: int, b: int|
            0 <= a < s1.len() && 0 <= b < s1.len() && (#[trigger] s1[a]).reset is Some
                && (#[trigger] s1[b]).reset is Some
                && s1[a].reset->Some_0.value == s1[b].reset->Some_0.value
            implies a == b by {
            assert(s[a].reset == s1[a].reset && s[b].reset == s1[b].reset);
        }
    }
}

/// Creating an account keeps the store well formed.
pub proof fn lemma_create_account_wf(s: Seq<AccountView>, id: Seq<char>, password: Seq<char>)
    requires
        store_wf(s),
    ensures
        store_wf(create_account_step(s, id, password).0),
{
    if !has_id(s, id) {
        let s1 = create_account_step(s, id, password).0;
        assert forall|a: int, b: int|
            0 <= a < s1.len() && 0 <= b < s1.len() && (#[trigger] s1[a]).id == (#[trigger] s1[b]).id
            implies a == b by {
            if a < s.len() && b < s.len() {
                assert(s[a] == s1[a] && s[b] == s1[b]);
            } else if a < s.len() {
                assert(s[a].id == id);
            } else if b < s.len() {
                assert(s[b].id == id);
            }
        }
        assert forall|a: int, b: int|
            0 <= a < s1.len() && 0 <= b < s1.len() && (#[trigger] s1[a]).verification is Some
                && (#[trigger] s1[b]).verification is Some
                && s1[a].verification->Some_0.value == s1[b].verification->Some_0.value
            implies a == b by {
            assert(a < s.len() && b < s.len());
            assert(s[a] == s1[a] && s[b] == s1[b]);
        }
        assert forall|a: int, b: int|
            0 <= a < s1.len() && 0 <= b < s1.len() && (#[trigger] s1[a]).reset is Some
                && (#[trigger] s1[b]).reset is Some
                && s1[a].reset->Some_0.value == s1[b].reset->Some_0.value
            implies a == b by {
            assert(a < s.len() && b < s.len());
            assert(s[a] == s1[a] && s[b] == s1[b]);
        }
    }
}

/// Issuing a reset token keeps the store well formed.
pub proof fn lemma_issue_reset_wf(s: Seq<AccountView>, id: Seq<char>, value: u128, now: i64)
    requires
        store_wf(s),
    ensures
        store_wf(issue_reset_step(s, id, value, now).0),
{
    if account_verified_in(s, id) && !reset_taken(s, id, value) {
        let i = index_of(s, id);
        let s1 = issue_reset_step(s, id, value, now).0;
        assert forall|a: int, b: int|
            0 <= a < s1.len() && 0 <= b < s1.len() && (#[trigger] s1[a]).reset is Some
                && (#[trigger] s1[b]).reset is Some
                && s1[a].reset->Some_0.value == s1[b].reset->Some_0.value
            implies a == b by {
            if a != i && b != i {
                assert(s[a] == s1[a] && s[b] == s1[b]);
            } else if a != i {
                assert(s[a].id != s[i].id);
                assert(holds(s[a].reset, value));
            } else if b != i {
                assert(s[b].id != s[i].id);
                assert(holds(s[b].reset, value));
            }
        }
        assert forall|a: int, b: int|
            0 <= a < s1.len() && 0 <= b < s1.len() && (#[trigger] s1[a]).id == (#[trigger] s1[b]).id
            implies a == b by {
            assert(s[a].id == s1[a].id && s[b].id == s1[b].id);
        }
        assert forall|a: int, b: int|
            0 <= a < s1.len() && 0 <= b < s1.len() && (#[trigger] s1[a]).verification is Some
                && (#[trigger] s1[b]).verification is Some
                && s1[a].verification->Some_0.value == s1[b].verification->Some_0.value
            implies a == b by {
            assert(s[a].verification == s1[a].verification && s[b].verification == s1[b].verification);
        }
    }
}

/// Issuing a second verification token for an account retires the first: the
/// first is no longer consumable, the second is, until it expires.
pub proof fn lemma_reissue_retires_previous(
    s: Seq<AccountView>,
    id: Seq<char>,
    first: u128,
    second: u128,
    first_at: i64,
    second_at: i64,
    now: i64,
)
    requires
        store_wf(s),
        first_at <= i64::MAX - TOKEN_TTL_SECS,
        second_at <= i64::MAX - TOKEN_TTL_SECS,
        issue_verification_step(s, id, first, first_at).1 is Ok,
        issue_verification_step(issue_verification_step(s, id, first, first_at).0, id, second, second_at).1 is Ok,
        first != second,
    ensures
        ({
            let s2 = issue_verification_step(issue_verification_step(s, id, first, first_at).0, id, second, second_at).0;
            &&& consume_verification_step(s2, first, now).1 == Err::<Seq<char>, StoreError>(StoreError::NotFound)
            &&& now < second_at + TOKEN_TTL_SECS ==> consume_verification_step(s2, second, now).1 == Ok::<Seq<char>, StoreError>(id)
        }),
{
    let s1 = issue_verification_step(s, id, first, first_at).0;
    let s2 = issue_verification_step(s1, id, second, second_at).0;
    lemma_issue_verification_wf(s, id, first, first_at);
    lemma_issue_verification_wf(s1, id, second, second_at);
    let i = index_of(s, id);
    let i1 = index_of(s1, id);
    assert(s1[i].id == id);
    assert(i1 == i);
    assert forall|j: int| 0 <= j < s2.len() implies !holds_live((#[trigger] s2[j]).verification, first, now) by {
        if j != i {
            assert(s2[j] == s[j]);
            assert(s[j].id != s[i].id);
        }
    }
    if now < second_at + TOKEN_TTL_SECS {
        assert(holds_live(s2[i].verification, second, now));
        let k = live_verification_index(s2, second, now);
        assert(k == i);
    }
}

/// Issuing a verification token for an account retires the one it held: that
/// value is no longer consumable, whoever asks and whenever.
pub proof fn lemma_issue_retires_held_token(s: Seq<AccountView>, id: Seq<char>, held: u128, fresh: u128, issued_at: i64, now: i64)
    requires
        store_wf(s),
        has_id(s, id),
        holds(s[index_of(s, id)].verification, held),
        issued_at <= i64::MAX - TOKEN_TTL_SECS,
        issue_verification_step(s, id, fresh, issued_at).1 is Ok,
        held != fresh,
    ensures
        consume_verification_step(issue_verification_step(s, id, fresh, issued_at).0, held, now).1
            == Err::<Seq<char>, StoreError>(StoreError::NotFound),
{
    let i = index_of(s, id);
    let s1 = issue_verification_step(s, id, fresh, issued_at).0;
    assert forall|j: int| 0 <= j < s1.len() implies !holds_live((#[trigger] s1[j]).verification, held, now) by {
        if j != i {
            assert(s1[j] == s[j]);
        }
    }
}

/// A verification token is consumed at most once: right after a successful
/// consumption the same value is `NotFound`.
pub proof fn lemma_consume_verification_once(s: Seq<AccountView>, value: u128, now: i64, later: i64)
    requires
        store_wf(s),
        consume_verification_step(s, value, now).1 is Ok,
    ensures
        consume_verification_step(consume_verification_step(s, value, now).0, value, later).1
            == Err::<Seq<char>, StoreError>(StoreError::NotFound),
{
    let i = live_verification_index(s, value, now);
    let s1 = consume_verification_step(s, value, now).0;
    assert forall|j: int| 0 <= j < s1.len() implies !holds_live((#[trigger] s1[j]).verification, value, later) by {
        if j != i {
            assert(s1[j] == s[j]);
        }
    }
}

/// A reset token is consumed at most once: right after a successful
/// consumption the same value is `NotFound`.
pub proof fn lemma_consume_reset_once(s: Seq<AccountView>, value: u128, password: Seq<char>, next: Seq<char>, now: i64, later: i64)
    requires
        store_wf(s),
        consume_reset_step(s, value, password, now).1 is Ok,
    ensures
        consume_reset_step(consume_reset_step(s, value, password, now).0, value, next, later).1
            == Err::<(), StoreError>(StoreError::NotFound),
{
    let i = live_reset_index(s, value, now);
    let s1 = consume_reset_step(s, value, password, now).0;
    assert forall|j: int| 0 <= j < s1.len() implies !holds_live((#[trigger] s1[j]).reset, value, later) by {
        if j != i {
            assert(s1[j] == s[j]);
        }
    }
}

/// An in-memory credential store. Each operation is one atomic step.
pub struct AuthRepo {
    accounts: Vec<Account>,
}

impl View for AuthRepo {
    type V = Seq<AccountView>;

    closed spec fn view(&self) -> Seq<AccountView> {
        self.accounts@.map_values(|a: Account| a@)
    }
}

impl AuthRepo {
    pub open spec fn wf(&self) -> bool {
        store_wf(self@)
    }

    pub fn new() -> (r: Self)
        ensures
            r@ == Seq::<AccountView>::empty(),
            r.wf(),
    {
        let r = AuthRepo { accounts: Vec::new() };
        assert(r@ =~= Seq::<AccountView>::empty());
        r
    }

    /// The position of the account `id`, if any.
    fn position(&self, id: &String) -> (r: Option<usize>)
        requires
            self.wf(),
        ensures
            r matches Some(i) ==> i < self@.len() && i == index_of(self@, id@) && has_id(self@, id@),
            r is None ==> !has_id(self@, id@),
    {
        let mut i: usize = 0;
        while i < self.accounts.len()
            invariant
                self.wf(),
                i <= self.accounts.len(),
                self@.len() == self.accounts.len(),
                forall|k: int| 0 <= k < i ==> (#[trigger] self@[k]).id != id@,
            decreases self.accounts.len() - i,
        {
            if self.accounts[i].id == *id {
                assert(self@[i as int].id == id@);
                assert(has_id(self@, id@));
                let ghost j = index_of(self@, id@);
                assert(self@[j].id == self@[i as int].id);
                return Some(i);
            }
            i = i + 1;
        }
        None
    }

    /// The position of the account that holds a live verification token of
    /// this value, if any.
    fn live_verification_position(&self, value: u128, now: i64) -> (r: Option<usize>)
        requires
            self.wf(),
        ensures
            r matches Some(i) ==> i < self@.len() && has_live_verification(self@, value, now)
                && i == live_verification_index(self@, value, now),
            r is None ==> !has_live_verification(self@, value, now),
    {
        let mut i: usize = 0;
        while i < self.accounts.len()
            invariant
                self.wf(),
                i <= self.accounts.len(),
                self@.len() == self.accounts.len(),
                forall|k: int| 0 <= k < i ==> !holds_live((#[trigger] self@[k]).verification, value, now),
            decreases self.accounts.len() - i,
        {
            if let Some(t) = self.accounts[i].verification {
                if t.value == value && t.expires_at > now {
                    assert(holds_live(self@[i as int].verification, value, now));
                    let ghost j = live_verification_index(self@, value, now);
                    assert(holds_live(self@[j].verification, value, now));
                    return Some(i);
                }
            }
            assert(!holds_live(self@[i as int].verification, value, now));
            i = i + 1;
        }
        None
    }

    fn live_reset_position(&self, value: u128, now: i64) -> (r: Option<usize>)
        requires
            self.wf(),
        ensures
            r matches Some(i) ==> i < self@.len() && has_live_reset(self@, value, now)
                && i == live_reset_index(self@, value, now),
            r is None ==> !has_live_reset(self@, value, now),
    {
        let mut i: usize = 0;
        while i < self.accounts.len()
            invariant
                self.wf(),
                i <= self.accounts.len(),
                self@.len() == self.accounts.len(),
                forall|k: int| 0 <= k < i ==> !holds_live((#[trigger] self@[k]).reset, value, now),
            decreases self.accounts.len() - i,
        {
            if let Some(t) = self.accounts[i].reset {
                if t.value == value && t.expires_at > now {
                    assert(holds_live(self@[i as int].reset, value, now));
                    let ghost j = live_reset_index(self@, value, now);
                    assert(holds_live(self@[j].reset, value, now));
                    return Some(i);
                }
            }
            assert(!holds_live(self@[i as int].reset, value, now));
            i = i + 1;
        }
        None
    }

    /// Whether an account other than the one at `at` holds a verification
    /// token (`reset` false) or a reset token (`reset` true) of this value.
    fn value_taken(&self, at: usize, value: u128, reset: bool) -> (r: bool)
        requires
            self.wf(),
            at < self@.len(),
        ensures
            !reset ==> r == verification_taken(self@, self@[at as int].id, value),
            reset ==> r == reset_taken(self@, self@[at as int].id, value),
    {
        let mut i: usize = 0;
        while i < self.accounts.len()
            invariant
                self.wf(),
                at < self@.len(),
                i <= self.accounts.len(),
                self@.len() == self.accounts.len(),
                forall|k: int| 0 <= k < i && k != at ==> !holds(
                    if reset { (#[trigger] self@[k]).reset } else { self@[k].verification },
                    value,
                ),
            decreases self.accounts.len() - i,
        {
            if i != at {
                let t = if reset { self.accounts[i].reset } else { self.accounts[i].verification };
                if let Some(t) = t {
                    if t.value == value {
                        assert(self@[i as int].id != self@[at as int].id);
                        return true;
                    }
                }
            }
            i = i + 1;
        }
        assert forall|j: int| 0 <= j < self@.len() && (#[trigger] self@[j]).id != self@[at as int].id
            implies !holds(if reset { self@[j].reset } else { self@[j].verification }, value) by {
            assert(j != at);
        }
        false
    }

    /// The account `id`, if any.
    pub fn get_user_by_id(&self, id: &str) -> (r: Option<AccountRecord>)
        requires
            self.wf(),
        ensures
            r is Some <==> has_id(self@, id@),
            r matches Some(a) ==> a.id@ == id@ && a.password@ == self@[index_of(self@, id@)].password
                && a.verified == self@[index_of(self@, id@)].verified,
    {
        let key = id.to_owned();
        match self.position(&key) {
            Some(i) => {
                let a = &self.accounts[i];
                Some(AccountRecord { id: a.id.clone(), password: a.password.clone(), verified: a.verified })
            },
            None => None,
        }
    }

    /// Whether the account `id` exists and is verified.
    pub fn exists_verified(&self, id: &str) -> (r: bool)
        requires
            self.wf(),
        ensures
            r == account_verified_in(self@, id@),
    {
        let key = id.to_owned();
        match self.position(&key) {
            Some(i) => self.accounts[i].verified,
            None => false,
        }
    }

    /// Adds the unverified account `id` with the password hash `password`.
    pub fn create_user(&mut self, id: &str, password: &str) -> (r: Result<(), StoreError>)
        requires
            old(self).wf(),
        ensures
            final(self).wf(),
            (final(self)@, r) == create_account_step(old(self)@, id@, password@),
    {
        let key = id.to_owned();
        match self.position(&key) {
            Some(_) => Err(StoreError::UniqueViolation),
            None => {
                let ghost s = self@;
                self.accounts.push(
                    Account { id: key, password: password.to_owned(), verified: false, verification: None, reset: None },
                );
                assert(self@ =~= create_account_step(s, id@, password@).0);
                Ok(())
            },
        }
    }

    /// Replaces every verification token of `id` by one of value `value`,
    /// live until `now` plus the token lifetime.
    pub fn create_user_verification(&mut self, id: &str, value: u128, now: i64) -> (r: Result<u128, StoreError>)
        requires
            old(self).wf(),
            now <= i64::MAX - TOKEN_TTL_SECS,
        ensures
            final(self).wf(),
            (final(self)@, r) == issue_verification_step(old(self)@, id@, value, now),
    {
        let key = id.to_owned();
        match self.position(&key) {
            None => Err(StoreError::NotFound),
            Some(i) => {
                if self.value_taken(i, value, false) {
                    return Err(StoreError::UniqueViolation);
                }
                let ghost s = self@;
                let t = OneTimeToken { value, expires_at: now + TOKEN_TTL_SECS };
                self.accounts[i].verification = Some(t);
                assert(self@ =~= s.update(i as int, set_verification(s[i as int], Some(t))));
                proof {
                    lemma_issue_verification_wf(s, id@, value, now);
                }
                Ok(value)
            },
        }
    }

    /// Replaces every reset token of the verified account `id` by one of value
    /// `value`; an unverified or unknown account is `NotFound` alike.
    pub fn create_user_reset_password(&mut self, id: &str, value: u128, now: i64) -> (r: Result<u128, StoreError>)
        requires
            old(self).wf(),
            now <= i64::MAX - TOKEN_TTL_SECS,
        ensures
            final(self).wf(),
            (final(self)@, r) == issue_reset_step(old(self)@, id@, value, now),
    {
        let key = id.to_owned();
        match self.position(&key) {
            None => Err(StoreError::NotFound),
            Some(i) => {
                if !self.accounts[i].verified {
                    return Err(StoreError::NotFound);
                }
                if self.value_taken(i, value, true) {
                    return Err(StoreError::UniqueViolation);
                }
                let ghost s = self@;
                let t = OneTimeToken { value, expires_at: now + TOKEN_TTL_SECS };
                self.accounts[i].reset = Some(t);
                assert(self@ =~= s.update(i as int, set_reset(s[i as int], Some(t))));
                proof {
                    lemma_issue_reset_wf(s, id@, value, now);
                }
                Ok(value)
            },
        }
    }

    /// Deletes the live verification token `value` and verifies its account;
    /// returns that account's identifier.
    pub fn validate_user(&mut self, value: u128, now: i64) -> (r: Result<String, StoreError>)
        requires
            old(self).wf(),
        ensures
            final(self).wf(),
            final(self)@ == consume_verification_step(old(self)@, value, now).0,
            match r {
                Ok(id) => consume_verification_step(old(self)@, value, now).1 == Ok::<Seq<char>, StoreError>(id@),
                Err(e) => consume_verification_step(old(self)@, value, now).1 == Err::<Seq<char>, StoreError>(e),
            },
    {
        match self.live_verification_position(value, now) {
            None => Err(StoreError::NotFound),
            Some(i) => {
                let ghost s = self@;
                self.accounts[i].verification = None;
                self.accounts[i].verified = true;
                let ghost a = s[i as int];
                assert(self@ =~= s.update(i as int, AccountView { id: a.id, password: a.password, verified: true, verification: None, reset: a.reset }));
                assert(store_wf(self@)) by {
                    assert forall|x: int| 0 <= x < self@.len() && x != i implies #[trigger] self@[x] == s[x] by {}
                }
                Ok(self.accounts[i].id.clone())
            },
        }
    }

    /// Whether a live reset token of this value exists.
    pub fn user_reset_password_exists(&self, value: u128, now: i64) -> (r: bool)
        requires
            self.wf(),
        ensures
            r == has_live_reset(self@, value, now),
    {
        self.live_reset_position(value, now).is_some()
    }

    /// Deletes the live reset token `value` and gives its account the password
    /// hash `password`.
    pub fn update_user_password(&mut self, value: u128, password: &str, now: i64) -> (r: Result<(), StoreError>)
        requires
            old(self).wf(),
        ensures
            final(self).wf(),
            (final(self)@, r) == consume_reset_step(old(self)@, value, password@, now),
    {
        match self.live_reset_position(value, now) {
            None => Err(StoreError::NotFound),
            Some(i) => {
                let ghost s = self@;
                self.accounts[i].reset = None;
                self.accounts[i].password = password.to_owned();
                let ghost a = s[i as int];
                assert(self@ =~= s.update(i as int, AccountView { id: a.id, password: password@, verified: a.verified, verification: a.verification, reset: None }));
                assert(store_wf(self@)) by {
                    assert forall|x: int| 0 <= x < self@.len() && x != i implies #[trigger] self@[x] == s[x] by {}
                }
                Ok(())
            },
        }
    }
}

/// The repositories that the services are built on.
pub struct DbClient {
    pub auth: AuthRepo,
}

impl DbClient {
    pub fn new() -> (r: Self)
        ensures
            r.auth@ == Seq::<AccountView>::empty(),
            r.auth.wf(),
    {
        DbClient { auth: AuthRepo::new() }
    }
}

} // verus!
