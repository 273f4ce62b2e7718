//! Accounts: registration, login, profile changes, removal and follows.
use crate::models::user_model::{LoginUser, RegisterUser, UpdateUser, User, UserResponse};
use crate::services::flow;
use crate::services::flow::{
    fail, fail_bare, fail_owned, fail_unexpected, succeed, succeed_with_message, Action, Body,
    CacheOp, Event, NewUser, Query, UserChanges, BAD_REQUEST, CONFLICT, FORBIDDEN,
    INTERNAL_SERVER_ERROR, NOT_FOUND, UNAUTHORIZED,
};
use crate::utils::ids;
use crate::utils::ids::parse_uuid;
use crate::utils::jwt;
use crate::utils::jwt::{access_claims_for_user, Claims, ACCESS_TOKEN_LIFETIME_SECS};
use crate::utils::password;
use crate::utils::password::{hash_password, verify_password, HASH_COST};
use crate::services::read_flow;
use crate::services::read_flow::{key_number, start_listing, start_lookup, ItemFlow, ListFlow, Listing, Lookup};
use crate::utils::cache;
use crate::utils::cache::keys;
use crate::utils::pagination;
use crate::utils::pagination::PaginationParams;
use crate::utils::text;
use crate::utils::text::text_byte_len;
use vstd::prelude::*;
use vstd::string::*;

verus! {

/// A registration request that passes the checks done before the database is
/// asked: username, email and password are present, the username has at
/// least 5 bytes and the password at least 8.
pub open spec fn registration_is_valid(p: RegisterUser) -> bool {
    &&& p.username@.len() > 0
    &&& p.email@.len() > 0
    &&& p.password@.len() > 0
    &&& text::byte_len(p.username@) >= 5
    &&& text::byte_len(p.password@) >= 8
}

/// The account a registration inserts once its password was hashed to `h`.
pub open spec fn new_account(payload: RegisterUser, h: String) -> NewUser {
    NewUser {
        username: payload.username,
        email: payload.email,
        name: payload.name,
        password_hash: h,
        birthday: payload.birthday,
    }
}

/// The step a registration takes once hashing its password gave `hashed`:
/// a hash is inserted with the account, and a failure ends the request
/// with 500 and the failure's text.
pub open spec fn registers_after_hash(
    r: (RegisterUserFlow, Action),
    payload: RegisterUser,
    hashed: Result<String, String>,
) -> bool {
    match hashed {
        Ok(h) => r.0 is Inserting && r.1 == Action::Run(Query::InsertUser(new_account(payload, h))),
        Err(e) => r.0 is Finished && flow::fails_with(r.1, INTERNAL_SERVER_ERROR, e@),
    }
}

/// Where a registration stands.
pub enum RegisterUserFlow {
    /// Asked whether the username is taken.
    CheckingUsername { payload: RegisterUser },
    /// Asked whether the email is taken.
    CheckingEmail { payload: RegisterUser },
    /// Asked to insert the account.
    Inserting,
    /// Replied.
    Finished,
}

/// Goes on with a registration once hashing its password gave `hashed`:
/// a hash is inserted with the account `payload` asks for, and a failure
/// ends the request with 500 and the failure's text.
pub fn insert_after_hash(payload: RegisterUser, hashed: Result<String, String>) -> (r: (RegisterUserFlow, Action))
    ensures
        registers_after_hash(r, payload, hashed),
{
    match hashed {
        Ok(h) => {
            let user = NewUser {
                username: payload.username,
                email: payload.email,
                name: payload.name,
                password_hash: h,
                birthday: payload.birthday,
            };
            (RegisterUserFlow::Inserting, Action::Run(Query::InsertUser(user)))
        },
        Err(e) => (RegisterUserFlow::Finished, fail_owned(INTERNAL_SERVER_ERROR, e)),
    }
}

impl RegisterUserFlow {
    /// Whether `f` and `a` are how a registration can start: replied at
    /// once, or asking whether its username is taken.
    pub open spec fn opens(f: RegisterUserFlow, a: Action) -> bool {
        match f {
            RegisterUserFlow::Finished => a is Finish,
            RegisterUserFlow::CheckingUsername { payload } => a == Action::Run(Query::UsernameTaken(payload.username)),
            _ => false,
        }
    }

    /// What answering `ev` leads to: the next state and action `r`.
    pub open spec fn steps_to(self, ev: Event, r: (RegisterUserFlow, Action)) -> bool {
        match self {
            RegisterUserFlow::CheckingUsername { payload } => match ev {
                Event::Flag(true) => r.0 is Finished && flow::fails_with(
                    r.1,
                    CONFLICT,
                    "Username or email already exists"@,
                ),
                Event::Flag(false) => r.0 == (RegisterUserFlow::CheckingEmail { payload })
                    && r.1 == Action::Run(Query::EmailTaken(payload.email)),
                Event::Failed(_) => r.0 is Finished && flow::fails_as_storage(r.1, ev),
                _ => r.0 is Finished && flow::fails_unexpectedly(r.1),
            },
            RegisterUserFlow::CheckingEmail { payload } => match ev {
                Event::Flag(true) => r.0 is Finished && flow::fails_with(
                    r.1,
                    CONFLICT,
                    "Username or email already exists"@,
                ),
                Event::Flag(false) => exists|hashed: Result<String, String>|
                    password::hashes_to(payload.password@, HASH_COST, hashed)
                        && #[trigger] registers_after_hash(r, payload, hashed),
                Event::Failed(_) => r.0 is Finished && flow::fails_as_storage(r.1, ev),
                _ => r.0 is Finished && flow::fails_unexpectedly(r.1),
            },
            RegisterUserFlow::Inserting => r.0 is Finished && match ev {
                Event::User(u) => flow::succeeds_with(r.1, Body::User(UserResponse::of(u))),
                Event::Failed(_) => flow::fails_as_storage(r.1, ev),
                _ => flow::fails_unexpectedly(r.1),
            },
            RegisterUserFlow::Finished => true,
        }
    }

    /// Every request still in progress passed the input checks.
    pub open spec fn wf(self) -> bool {
        match self {
            RegisterUserFlow::CheckingUsername { payload } => registration_is_valid(payload),
            RegisterUserFlow::CheckingEmail { payload } => registration_is_valid(payload),
            _ => true,
        }
    }

    /// Takes the answer to the last action. A taken username or email ends
    /// the request with 409; otherwise the password is hashed and the
    /// account inserted, and the reply is the account without its hash.
    pub fn resume(self, ev: Event) -> (r: (RegisterUserFlow, Action))
        requires
            self.wf(),
            !(self is Finished),
        ensures
            r.0.wf(),
            self.steps_to(ev, r),
            r.1 matches Action::Run(Query::InsertUser(u)) ==> text::byte_len(u.username@) >= 5,
    {
        match self {
            RegisterUserFlow::CheckingUsername { payload } => match ev {
                Event::Flag(taken) => {
                    if taken {
                        (
                            RegisterUserFlow::Finished,
                            fail(CONFLICT, "Username or email already exists"),
                        )
                    } else {
                        let email = payload.email.clone();
                        (
                            RegisterUserFlow::CheckingEmail { payload },
                            Action::Run(Query::EmailTaken(email)),
                        )
                    }
                },
                Event::Failed(m) => (
                    RegisterUserFlow::Finished,
                    fail_owned(INTERNAL_SERVER_ERROR, m),
                ),
                _ => (RegisterUserFlow::Finished, fail_unexpected()),
            },
            RegisterUserFlow::CheckingEmail { payload } => match ev {
                Event::Flag(taken) => {
                    if taken {
                        (
                            RegisterUserFlow::Finished,
                            fail(CONFLICT, "Username or email already exists"),
                        )
                    } else {
                        let hashed = hash_password(payload.password.as_str(), HASH_COST);
                        let ghost outcome = hashed;
                        let ghost asked = payload;
                        let r = insert_after_hash(payload, hashed);
                        assert(registers_after_hash(r, asked, outcome));
                        r
                    }
                },
                Event::Failed(m) => (
                    RegisterUserFlow::Finished,
                    fail_owned(INTERNAL_SERVER_ERROR, m),
                ),
                _ => (RegisterUserFlow::Finished, fail_unexpected()),
            },
            RegisterUserFlow::Inserting => match ev {
                Event::User(u) => (RegisterUserFlow::Finished, succeed(Body::User(UserResponse::from(u)))),
                Event::Failed(m) => (
                    RegisterUserFlow::Finished,
                    fail_owned(INTERNAL_SERVER_ERROR, m),
                ),
                _ => (RegisterUserFlow::Finished, fail_unexpected()),
            },
            RegisterUserFlow::Finished => (RegisterUserFlow::Finished, fail_unexpected()),
        }
    }
}

/// Starts a registration. Missing fields end it with 400, and so do a
/// username under 5 bytes and a password under 8 bytes, checked in that
/// order; a valid request first asks whether the username is taken.
pub fn register_user(payload: RegisterUser) -> (r: (RegisterUserFlow, Action))
    ensures
        RegisterUserFlow::opens(r.0, r.1),
        r.0.wf(),
        (payload.username@.len() == 0 || payload.email@.len() == 0 || payload.password@.len()
            == 0) ==> r.0 is Finished && flow::fails_with(
            r.1,
            BAD_REQUEST,
            "Username, email, and password are required"@,
        ),
        (payload.username@.len() > 0 && payload.email@.len() > 0 && payload.password@.len() > 0
            && text::byte_len(payload.username@) < 5) ==> r.0 is Finished && flow::fails_with(
            r.1,
            BAD_REQUEST,
            "Username must be at least 5 characters long"@,
        ),
        (payload.username@.len() > 0 && payload.email@.len() > 0 && payload.password@.len() > 0
            && text::byte_len(payload.username@) >= 5 && text::byte_len(payload.password@) < 8) ==> r.0
            is Finished && flow::fails_with(
            r.1,
            BAD_REQUEST,
            "Password must be at least 8 characters long"@,
        ),
        registration_is_valid(payload) ==> r.0 == (RegisterUserFlow::CheckingUsername { payload })
            && r.1 == Action::Run(Query::UsernameTaken(payload.username)),
{
    if payload.username.as_str().is_empty() || payload.email.as_str().is_empty()
        || payload.password.as_str().is_empty() {
        return (
            RegisterUserFlow::Finished,
            fail(BAD_REQUEST, "Username, email, and password are required"),
        );
    }
    if text_byte_len(payload.username.as_str()) < 5 {
        return (
            RegisterUserFlow::Finished,
            fail(BAD_REQUEST, "Username must be at least 5 characters long"),
        );
    }
    if text_byte_len(payload.password.as_str()) < 8 {
        return (
            RegisterUserFlow::Finished,
            fail(BAD_REQUEST, "Password must be at least 8 characters long"),
        );
    }
    let username = payload.username.clone();
    (RegisterUserFlow::CheckingUsername { payload }, Action::Run(Query::UsernameTaken(username)))
}

/// Where a login stands.
pub enum LoginUserFlow {
    /// Asked for the account with the given username.
    FindingUser { payload: LoginUser, now: i64 },
    /// Asked to sign an access token for `user`.
    Signing { user: User },
    /// Replied.
    Finished,
}

impl LoginUserFlow {
    /// Whether `f` and `a` are how a login can start: replied at once, or
    /// asking for the account with its username.
    pub open spec fn opens(f: LoginUserFlow, a: Action) -> bool {
        match f {
            LoginUserFlow::Finished => a is Finish,
            LoginUserFlow::FindingUser { payload, .. } => a == Action::Run(Query::UserByUsername(payload.username)),
            _ => false,
        }
    }

    /// What answering `ev` leads to: the next state and action `r`.
    pub open spec fn steps_to(self, ev: Event, r: (LoginUserFlow, Action)) -> bool {
        match self {
            LoginUserFlow::FindingUser { payload, now } => match ev {
                Event::MaybeUser(None) => r.0 is Finished && flow::fails_with(
                    r.1,
                    UNAUTHORIZED,
                    "Wrong username or password"@,
                ),
                Event::MaybeUser(Some(u)) => match password::bcrypt_verify_result(
                    payload.password@,
                    u.password_hash@,
                ) {
                    Ok(true) => {
                        &&& r.0 == (LoginUserFlow::Signing { user: u })
                        &&& r.1 matches Action::IssueToken(c)
                        &&& issues_token_for(c, u.id, now)
                    },
                    Ok(false) => r.0 is Finished && flow::fails_with(
                        r.1,
                        UNAUTHORIZED,
                        "Wrong username or password"@,
                    ),
                    Err(e) => r.0 is Finished && flow::fails_with(r.1, INTERNAL_SERVER_ERROR, e),
                },
                Event::Failed(_) => r.0 is Finished && flow::fails_as_storage(r.1, ev),
                _ => r.0 is Finished && flow::fails_unexpectedly(r.1),
            },
            LoginUserFlow::Signing { user } => r.0 is Finished && match ev {
                Event::Token(t) => flow::succeeds_with(
                    r.1,
                    Body::Login { user: UserResponse::of(user), access_token: t },
                ),
                Event::Failed(_) => flow::fails_as_storage(r.1, ev),
                _ => flow::fails_unexpectedly(r.1),
            },
            LoginUserFlow::Finished => true,
        }
    }

    /// The time a login started at leaves room for the token's expiry.
    pub open spec fn wf(self) -> bool {
        match self {
            LoginUserFlow::FindingUser { payload, now } => now + ACCESS_TOKEN_LIFETIME_SECS
                <= i64::MAX,
            _ => true,
        }
    }

    /// Takes the answer to the last action. An unknown username and a wrong
    /// password both end the request with 401; a password that
    /// `bcrypt::verify` accepts leads to a token whose subject is the
    /// account's identifier, and the reply carries it and the account.
    pub fn resume(self, ev: Event) -> (r: (LoginUserFlow, Action))
        requires
            self.wf(),
            !(self is Finished),
        ensures
            r.0.wf(),
            self.steps_to(ev, r),
    {
        match self {
            LoginUserFlow::FindingUser { payload, now } => match ev {
                Event::MaybeUser(found) => match found {
                    None => (LoginUserFlow::Finished, fail(UNAUTHORIZED, "Wrong username or password")),
                    Some(u) => match verify_password(payload.password.as_str(), u.password_hash.as_str()) {
                        Ok(valid) => {
                            if valid {
                                let claims = access_claims_for_user(u.id, now);
                                (LoginUserFlow::Signing { user: u }, Action::IssueToken(claims))
                            } else {
                                (LoginUserFlow::Finished, fail(UNAUTHORIZED, "Wrong username or password"))
                            }
                        },
                        Err(e) => (LoginUserFlow::Finished, fail_owned(INTERNAL_SERVER_ERROR, e)),
                    },
                },
                Event::Failed(m) => (LoginUserFlow::Finished, fail_owned(INTERNAL_SERVER_ERROR, m)),
                _ => (LoginUserFlow::Finished, fail_unexpected()),
            },
            LoginUserFlow::Signing { user } => match ev {
                Event::Token(t) => (
                    LoginUserFlow::Finished,
                    succeed(Body::Login { user: UserResponse::from(user), access_token: t }),
                ),
                Event::Failed(m) => (LoginUserFlow::Finished, fail_owned(INTERNAL_SERVER_ERROR, m)),
                _ => (LoginUserFlow::Finished, fail_unexpected()),
            },
            LoginUserFlow::Finished => (LoginUserFlow::Finished, fail_unexpected()),
        }
    }
}

/// `c` are the claims of an access token for account `id` issued at `now`:
/// subject and `id` are the account's identifier text, which reads back as
/// the identifier.
pub open spec fn issues_token_for(c: Claims, id: u128, now: i64) -> bool {
    &&& c.sub@ == ids::uuid_text(id)
    &&& c.id@ == ids::uuid_text(id)
    &&& ids::uuid_parse(c.sub@) == Some(id)
    &&& c.exp == jwt::access_expiry(now)
}

/// Starts a login at time `now` (seconds since the Unix epoch). A missing
/// username or password ends it with 400; otherwise the account with that
/// username is looked up.
pub fn login_user(payload: LoginUser, now: i64) -> (r: (LoginUserFlow, Action))
    requires
        now + ACCESS_TOKEN_LIFETIME_SECS <= i64::MAX,
    ensures
        LoginUserFlow::opens(r.0, r.1),
        r.0.wf(),
        (payload.username@.len() == 0 || payload.password@.len() == 0) ==> r.0 is Finished
            && flow::fails_with(r.1, BAD_REQUEST, "Username and password are required"@),
        (payload.username@.len() > 0 && payload.password@.len() > 0) ==> r.0 == (LoginUserFlow::FindingUser { payload, now })
            && r.1 == Action::Run(Query::UserByUsername(payload.username)),
{
    if payload.username.as_str().is_empty() || payload.password.as_str().is_empty() {
        return (LoginUserFlow::Finished, fail(BAD_REQUEST, "Username and password are required"));
    }
    let username = payload.username.clone();
    (LoginUserFlow::FindingUser { payload, now }, Action::Run(Query::UserByUsername(username)))
}

/// The account identifier named by a token's subject, if the subject reads
/// as one.
pub fn subject_id(claims: &Claims) -> (r: Option<u128>)
    ensures
        r == ids::uuid_parse(claims.sub@),
{
    parse_uuid(claims.sub.as_str())
}

/// An update request that passes the checks done before the database is
/// asked: a new username has at least 5 bytes, a new password at least 8,
/// and at least one field is given.
pub open spec fn update_is_valid(p: UpdateUser) -> bool {
    &&& (p.username matches Some(u) ==> text::byte_len(u@) >= 5)
    &&& (p.password matches Some(pw) ==> text::byte_len(pw@) >= 8)
    &&& !(p.username is None && p.email is None && p.name is None && p.password is None
        && p.birthday is None)
}

/// `m` reports a violated uniqueness constraint: it mentions `unique` or
/// `duplicate`.
pub open spec fn reports_duplicate(m: Seq<char>) -> bool {
    text::occurs_in("unique"@, m) || text::occurs_in("duplicate"@, m)
}

/// The changes to account `id` that `payload` asks for, with `hash` stored
/// in place of a new password.
pub open spec fn changes_for(id: u128, payload: UpdateUser, hash: Option<String>) -> UserChanges {
    UserChanges {
        id,
        username: payload.username,
        email: payload.email,
        name: payload.name,
        password_hash: hash,
        birthday: payload.birthday,
    }
}

/// The step an update of account `id` takes once hashing its new password
/// gave `hashed` (`None` when it changes no password): the changes are
/// sent with the hash, and a failed hashing ends the request with 500 and
/// the failure's text.
pub open spec fn updates_after_hash(
    r: (UpdateUserFlow, Action),
    id: u128,
    payload: UpdateUser,
    hashed: Option<Result<String, String>>,
) -> bool {
    match hashed {
        None => r.0 == (UpdateUserFlow::Updating { id, new_username: payload.username })
            && r.1 == Action::Run(Query::UpdateUser(changes_for(id, payload, None))),
        Some(Ok(h)) => r.0 == (UpdateUserFlow::Updating { id, new_username: payload.username })
            && r.1 == Action::Run(Query::UpdateUser(changes_for(id, payload, Some(h)))),
        Some(Err(e)) => r.0 is Finished && flow::fails_with(r.1, INTERNAL_SERVER_ERROR, e@),
    }
}

/// What hashing the new password of `payload` may give: nothing when no
/// new password is given, else what `bcrypt::hash` with cost 12 may give.
pub open spec fn new_password_hashed(payload: UpdateUser, hashed: Option<Result<String, String>>) -> bool {
    match payload.password {
        None => hashed is None,
        Some(pw) => hashed matches Some(h) && password::hashes_to(pw@, HASH_COST, h),
    }
}

/// Goes on with an update of account `id` once hashing its new password
/// gave `hashed` (`None` when it changes no password): the changes are
/// sent with the hash, and a failed hashing ends the request with 500 and
/// the failure's text.
pub fn update_after_hash(id: u128, payload: UpdateUser, hashed: Option<Result<String, String>>) -> (r: (UpdateUserFlow, Action))
    ensures
        updates_after_hash(r, id, payload, hashed),
{
    let password_hash = match hashed {
        None => None,
        Some(Ok(h)) => Some(h),
        Some(Err(e)) => return (UpdateUserFlow::Finished, fail_owned(INTERNAL_SERVER_ERROR, e)),
    };
    let new_username = payload.username.clone();
    let changes = UserChanges {
        id,
        username: payload.username,
        email: payload.email,
        name: payload.name,
        password_hash,
        birthday: payload.birthday,
    };
    (UpdateUserFlow::Updating { id, new_username }, Action::Run(Query::UpdateUser(changes)))
}

/// The cache removals after account `id` changed: its cached account, the
/// cached lookup under the new username when one was given, and its cached
/// profile pages.
pub open spec fn account_update_invalidations(ops: Seq<CacheOp>, id: u128, new_username: Option<String>) -> bool {
    &&& ops.len() == if new_username is Some { 3int } else { 2int }
    &&& ops[0] matches CacheOp::Delete(k) && k@ == keys::id_key("user:"@, id)
    &&& (new_username matches Some(n) ==> ops[1] matches CacheOp::Delete(k)
        && k@ == "user:username:"@ + n@)
    &&& ops[ops.len() - 1] matches CacheOp::InvalidatePattern(p) && p@ == keys::id_pattern("user:profile:"@, id)
}

fn account_update_ops(id: u128, new_username: &Option<String>) -> (ops: Vec<CacheOp>)
    ensures
        account_update_invalidations(ops@, id, *new_username),
{
    let mut ops: Vec<CacheOp> = Vec::new();
    ops.push(CacheOp::Delete(crate::utils::cache::keys::user(id)));
    match new_username {
        Some(n) => ops.push(CacheOp::Delete(crate::utils::cache::keys::user_by_username(n.as_str()))),
        None => {},
    }
    ops.push(CacheOp::InvalidatePattern(crate::utils::cache::keys::user_profile_pattern(id)));
    ops
}

/// Where an account update stands.
pub enum UpdateUserFlow {
    /// Asked to apply the changes to account `id`.
    Updating { id: u128, new_username: Option<String> },
    /// Asked to remove stale cache entries; `user` is the updated account.
    Invalidating { user: User },
    /// Replied.
    Finished,
}

impl UpdateUserFlow {
    /// Takes the answer to the last action. A failure that reports a
    /// uniqueness violation ends the request with 409 and any other with
    /// 500; a missing account with 404. After an update the cache entries of
    /// the account are removed and the reply carries the updated account.
    pub fn resume(self, ev: Event) -> (r: (UpdateUserFlow, Action))
        requires
            !(self is Finished),
        ensures
            match self {
                UpdateUserFlow::Updating { id, new_username } => match ev {
                    Event::Failed(m) => r.0 is Finished && if reports_duplicate(m@) {
                        flow::fails_with(r.1, CONFLICT, "Username or email already exists"@)
                    } else {
                        flow::fails_with(r.1, INTERNAL_SERVER_ERROR, m@)
                    },
                    Event::MaybeUser(None) => r.0 is Finished && flow::fails_with(r.1, NOT_FOUND, "User not found"@),
                    Event::MaybeUser(Some(u)) => {
                        &&& r.0 == (UpdateUserFlow::Invalidating { user: u })
                        &&& r.1 matches Action::Invalidate(ops)
                        &&& account_update_invalidations(ops@, id, new_username)
                    },
                    _ => r.0 is Finished && flow::fails_unexpectedly(r.1),
                },
                UpdateUserFlow::Invalidating { user } => r.0 is Finished && flow::succeeds_with(
                    r.1,
                    Body::UserUpdated(UserResponse::of(user)),
                ),
                UpdateUserFlow::Finished => true,
            },
    {
        match self {
            UpdateUserFlow::Updating { id, new_username } => match ev {
                Event::Failed(m) => {
                    if crate::utils::text::contains_text(m.as_str(), "unique")
                        || crate::utils::text::contains_text(m.as_str(), "duplicate") {
                        (UpdateUserFlow::Finished, fail(CONFLICT, "Username or email already exists"))
                    } else {
                        (UpdateUserFlow::Finished, fail_owned(INTERNAL_SERVER_ERROR, m))
                    }
                },
                Event::MaybeUser(found) => match found {
                    None => (UpdateUserFlow::Finished, fail(NOT_FOUND, "User not found")),
                    Some(u) => {
                        let ops = account_update_ops(id, &new_username);
                        (UpdateUserFlow::Invalidating { user: u }, Action::Invalidate(ops))
                    },
                },
                _ => (UpdateUserFlow::Finished, fail_unexpected()),
            },
            UpdateUserFlow::Invalidating { user } => (
                UpdateUserFlow::Finished,
                succeed(Body::UserUpdated(UserResponse::from(user))),
            ),
            UpdateUserFlow::Finished => (UpdateUserFlow::Finished, fail_unexpected()),
        }
    }
}

/// Starts an update of the caller's own account. A rejected token ends it
/// with 401, a subject that is no identifier with 400, and so do a new
/// username under 5 bytes, a new password under 8 bytes and a request that
/// changes nothing, checked in that order. A new password is hashed before
/// the update is sent.
pub fn update_user(auth: Result<Claims, u16>, payload: UpdateUser) -> (r: (UpdateUserFlow, Action))
    ensures
        auth is Err ==> r.0 is Finished && flow::fails_with(r.1, UNAUTHORIZED, "Unauthorized access"@),
        auth matches Ok(c) ==> match ids::uuid_parse(c.sub@) {
            None => r.0 is Finished && flow::fails_with(r.1, BAD_REQUEST, "Invalid user ID"@),
            Some(id) => if payload.username matches Some(u) && text::byte_len(u@) < 5 {
                r.0 is Finished && flow::fails_with(r.1, BAD_REQUEST, "Username must be at least 5 characters long"@)
            } else if payload.password matches Some(pw) && text::byte_len(pw@) < 8 {
                r.0 is Finished && flow::fails_with(r.1, BAD_REQUEST, "Password must be at least 8 characters long"@)
            } else if !update_is_valid(payload) {
                r.0 is Finished && flow::fails_with(r.1, BAD_REQUEST, "No fields provided for update"@)
            } else {
                exists|hashed: Option<Result<String, String>>|
                    new_password_hashed(payload, hashed) && #[trigger] updates_after_hash(r, id, payload, hashed)
            },
        },
        auth matches Ok(c) ==> (ids::uuid_parse(c.sub@) matches Some(id) ==> (update_is_valid(payload)
            && payload.password is None ==> r.0 == (UpdateUserFlow::Updating { id, new_username: payload.username })
            && r.1 == Action::Run(Query::UpdateUser(changes_for(id, payload, None))))),
{
    let claims = match auth {
        Ok(c) => c,
        Err(_) => return (UpdateUserFlow::Finished, fail(UNAUTHORIZED, "Unauthorized access")),
    };
    let id = match subject_id(&claims) {
        Some(id) => id,
        None => return (UpdateUserFlow::Finished, fail(BAD_REQUEST, "Invalid user ID")),
    };
    match &payload.username {
        Some(u) => {
            if text_byte_len(u.as_str()) < 5 {
                return (
                    UpdateUserFlow::Finished,
                    fail(BAD_REQUEST, "Username must be at least 5 characters long"),
                );
            }
        },
        None => {},
    }
    match &payload.password {
        Some(pw) => {
            if text_byte_len(pw.as_str()) < 8 {
                return (
                    UpdateUserFlow::Finished,
                    fail(BAD_REQUEST, "Password must be at least 8 characters long"),
                );
            }
        },
        None => {},
    }
    if payload.username.is_none() && payload.email.is_none() && payload.name.is_none()
        && payload.password.is_none() && payload.birthday.is_none() {
        return (UpdateUserFlow::Finished, fail(BAD_REQUEST, "No fields provided for update"));
    }
    let hashed = match &payload.password {
        Some(pw) => Some(hash_password(pw.as_str(), HASH_COST)),
        None => None,
    };
    let ghost outcome = hashed;
    let ghost asked = payload;
    let r = update_after_hash(id, payload, hashed);
    assert(new_password_hashed(asked, outcome));
    assert(updates_after_hash(r, id, asked, outcome));
    r
}

/// The cache removals before account `id` is deleted: its account key and
/// its profile, post, follower, following and feed pages, and its two
/// follow counts.
pub open spec fn account_deletion_invalidations(ops: Seq<CacheOp>, id: u128) -> bool {
    &&& ops.len() == 8
    &&& ops[0] matches CacheOp::InvalidatePattern(p) && p@ == keys::id_key("user:"@, id)
    &&& ops[1] matches CacheOp::InvalidatePattern(p) && p@ == keys::id_pattern("user:profile:"@, id)
    &&& ops[2] matches CacheOp::InvalidatePattern(p) && p@ == keys::id_pattern("user:posts:"@, id)
    &&& ops[3] matches CacheOp::InvalidatePattern(p) && p@ == keys::id_pattern("followers:"@, id)
    &&& ops[4] matches CacheOp::InvalidatePattern(p) && p@ == keys::id_pattern("following:"@, id)
    &&& ops[5] matches CacheOp::InvalidatePattern(p) && p@ == keys::id_pattern("feed:"@, id)
    &&& ops[6] matches CacheOp::Delete(k) && k@ == keys::id_key("followers:count:"@, id)
    &&& ops[7] matches CacheOp::Delete(k) && k@ == keys::id_key("following:count:"@, id)
}

fn account_deletion_ops(id: u128) -> (ops: Vec<CacheOp>)
    ensures
        account_deletion_invalidations(ops@, id),
{
    let mut ops: Vec<CacheOp> = Vec::new();
    ops.push(CacheOp::InvalidatePattern(crate::utils::cache::keys::user(id)));
    ops.push(CacheOp::InvalidatePattern(crate::utils::cache::keys::user_profile_pattern(id)));
    ops.push(CacheOp::InvalidatePattern(crate::utils::cache::keys::user_posts_pattern(id)));
    ops.push(CacheOp::InvalidatePattern(crate::utils::cache::keys::followers_pattern(id)));
    ops.push(CacheOp::InvalidatePattern(crate::utils::cache::keys::following_pattern(id)));
    ops.push(CacheOp::InvalidatePattern(crate::utils::cache::keys::feed_pattern(id)));
    ops.push(CacheOp::Delete(crate::utils::cache::keys::follower_count(id)));
    ops.push(CacheOp::Delete(crate::utils::cache::keys::following_count(id)));
    ops
}

/// The statements that delete account `id` and everything tied to it, in
/// the order they run: likes and comments on its posts, its posts, its own
/// comments and likes, its follows, and the account row.
pub open spec fn account_deletion_step(id: u128, step: int) -> Query {
    if step == 0 {
        Query::DeleteLikesOnPostsOf(id)
    } else if step == 1 {
        Query::DeleteCommentsOnPostsOf(id)
    } else if step == 2 {
        Query::DeletePostsOf(id)
    } else if step == 3 {
        Query::DeleteCommentsBy(id)
    } else if step == 4 {
        Query::DeleteLikesBy(id)
    } else if step == 5 {
        Query::DeleteFollowsOf(id)
    } else {
        Query::DeleteUserRow(id)
    }
}

/// Number of statements that delete an account.
pub const ACCOUNT_DELETION_STEPS: u8 = 7;

fn deletion_query(id: u128, step: u8) -> (q: Query)
    ensures
        q == account_deletion_step(id, step as int),
{
    if step == 0 {
        Query::DeleteLikesOnPostsOf(id)
    } else if step == 1 {
        Query::DeleteCommentsOnPostsOf(id)
    } else if step == 2 {
        Query::DeletePostsOf(id)
    } else if step == 3 {
        Query::DeleteCommentsBy(id)
    } else if step == 4 {
        Query::DeleteLikesBy(id)
    } else if step == 5 {
        Query::DeleteFollowsOf(id)
    } else {
        Query::DeleteUserRow(id)
    }
}

/// Where an account deletion stands.
pub enum DeleteUserFlow {
    /// Asked to remove the account's cache entries.
    Invalidating { id: u128 },
    /// Asked to open the transaction.
    Beginning { id: u128 },
    /// Asked to run deletion statement `step`.
    Deleting { id: u128, step: u8 },
    /// Asked to commit.
    Committing,
    /// Replied.
    Finished,
}

impl DeleteUserFlow {
    /// Deletion steps stay within the list of statements.
    pub open spec fn wf(self) -> bool {
        match self {
            DeleteUserFlow::Deleting { id, step } => step < ACCOUNT_DELETION_STEPS,
            _ => true,
        }
    }

    /// Takes the answer to the last action. Cache removals never fail the
    /// request; then, in one transaction, each deletion statement runs in
    /// turn and the transaction commits. Any database failure ends the
    /// request with 500, before the commit.
    pub fn resume(self, ev: Event) -> (r: (DeleteUserFlow, Action))
        requires
            self.wf(),
            !(self is Finished),
        ensures
            r.0.wf(),
            match self {
                DeleteUserFlow::Invalidating { id } => r.0 == (DeleteUserFlow::Beginning { id })
                    && r.1 == Action::BeginTransaction,
                DeleteUserFlow::Beginning { id } => match ev {
                    Event::Done => r.0 == (DeleteUserFlow::Deleting { id, step: 0 }) && r.1
                        == Action::Run(account_deletion_step(id, 0)),
                    Event::Failed(_) => r.0 is Finished && flow::fails_as_storage(r.1, ev),
                    _ => r.0 is Finished && flow::fails_unexpectedly(r.1),
                },
                DeleteUserFlow::Deleting { id, step } => match ev {
                    Event::Done => if step + 1 < ACCOUNT_DELETION_STEPS {
                        r.0 == (DeleteUserFlow::Deleting { id, step: (step + 1) as u8 }) && r.1
                            == Action::Run(account_deletion_step(id, step + 1))
                    } else {
                        r.0 is Committing && r.1 == Action::CommitTransaction
                    },
                    Event::Failed(_) => r.0 is Finished && flow::fails_as_storage(r.1, ev),
                    _ => r.0 is Finished && flow::fails_unexpectedly(r.1),
                },
                DeleteUserFlow::Committing => r.0 is Finished && match ev {
                    Event::Done => flow::succeeds_with_message(
                        r.1,
                        "User and all associated data deleted successfully"@,
                    ),
                    Event::Failed(_) => flow::fails_as_storage(r.1, ev),
                    _ => flow::fails_unexpectedly(r.1),
                },
                DeleteUserFlow::Finished => true,
            },
    {
        match self {
            DeleteUserFlow::Invalidating { id } => (DeleteUserFlow::Beginning { id }, Action::BeginTransaction),
            DeleteUserFlow::Beginning { id } => match ev {
                Event::Done => (DeleteUserFlow::Deleting { id, step: 0 }, Action::Run(deletion_query(id, 0))),
                Event::Failed(m) => (DeleteUserFlow::Finished, fail_owned(INTERNAL_SERVER_ERROR, m)),
                _ => (DeleteUserFlow::Finished, fail_unexpected()),
            },
            DeleteUserFlow::Deleting { id, step } => match ev {
                Event::Done => {
                    if step + 1 < ACCOUNT_DELETION_STEPS {
                        (
                            DeleteUserFlow::Deleting { id, step: step + 1 },
                            Action::Run(deletion_query(id, step + 1)),
                        )
                    } else {
                        (DeleteUserFlow::Committing, Action::CommitTransaction)
                    }
                },
                Event::Failed(m) => (DeleteUserFlow::Finished, fail_owned(INTERNAL_SERVER_ERROR, m)),
                _ => (DeleteUserFlow::Finished, fail_unexpected()),
            },
            DeleteUserFlow::Committing => match ev {
                Event::Done => (
                    DeleteUserFlow::Finished,
                    succeed_with_message("User and all associated data deleted successfully"),
                ),
                Event::Failed(m) => (DeleteUserFlow::Finished, fail_owned(INTERNAL_SERVER_ERROR, m)),
                _ => (DeleteUserFlow::Finished, fail_unexpected()),
            },
            DeleteUserFlow::Finished => (DeleteUserFlow::Finished, fail_unexpected()),
        }
    }
}

/// Starts the deletion of the caller's own account. A rejected token ends
/// it with 401 and a subject that is no identifier with 400; otherwise the
/// account's cache entries are removed first.
pub fn delete_user(auth: Result<Claims, u16>) -> (r: (DeleteUserFlow, Action))
    ensures
        r.0.wf(),
        auth is Err ==> r.0 is Finished && flow::fails_with(r.1, UNAUTHORIZED, "Unauthorized access"@),
        auth matches Ok(c) ==> match ids::uuid_parse(c.sub@) {
            None => r.0 is Finished && flow::fails_with(r.1, BAD_REQUEST, "Invalid user ID"@),
            Some(id) => {
                &&& r.0 == (DeleteUserFlow::Invalidating { id })
                &&& r.1 matches Action::Invalidate(ops)
                &&& account_deletion_invalidations(ops@, id)
            },
        },
{
    let claims = match auth {
        Ok(c) => c,
        Err(_) => return (DeleteUserFlow::Finished, fail(UNAUTHORIZED, "Unauthorized access")),
    };
    match subject_id(&claims) {
        Some(id) => (DeleteUserFlow::Invalidating { id }, Action::Invalidate(account_deletion_ops(id))),
        None => (DeleteUserFlow::Finished, fail(BAD_REQUEST, "Invalid user ID")),
    }
}

/// The cache removals after `follower` starts or stops following `target`:
/// the target's follower pages, the follower's following pages, both
/// follow counts, and the follower's feed pages.
pub open spec fn follow_invalidations(ops: Seq<CacheOp>, follower: u128, target: u128) -> bool {
    &&& ops.len() == 5
    &&& ops[0] matches CacheOp::InvalidatePattern(p) && p@ == keys::id_pattern("followers:"@, target)
    &&& ops[1] matches CacheOp::InvalidatePattern(p) && p@ == keys::id_pattern("following:"@, follower)
    &&& ops[2] matches CacheOp::Delete(k) && k@ == keys::id_key("followers:count:"@, target)
    &&& ops[3] matches CacheOp::Delete(k) && k@ == keys::id_key("following:count:"@, follower)
    &&& ops[4] matches CacheOp::InvalidatePattern(p) && p@ == keys::id_pattern("feed:"@, follower)
}

fn follow_ops(follower: u128, target: u128) -> (ops: Vec<CacheOp>)
    ensures
        follow_invalidations(ops@, follower, target),
{
    let mut ops: Vec<CacheOp> = Vec::new();
    ops.push(CacheOp::InvalidatePattern(crate::utils::cache::keys::followers_pattern(target)));
    ops.push(CacheOp::InvalidatePattern(crate::utils::cache::keys::following_pattern(follower)));
    ops.push(CacheOp::Delete(crate::utils::cache::keys::follower_count(target)));
    ops.push(CacheOp::Delete(crate::utils::cache::keys::following_count(follower)));
    ops.push(CacheOp::InvalidatePattern(crate::utils::cache::keys::feed_pattern(follower)));
    ops
}

/// Where a follow request stands.
pub enum FollowUserFlow {
    /// Asked whether the target account exists.
    CheckingTarget { follower: u128, target: u128 },
    /// Asked whether the follow already exists.
    CheckingFollow { follower: u128, target: u128 },
    /// Asked to record the follow.
    Inserting { follower: u128, target: u128 },
    /// Asked to remove stale cache entries.
    Invalidating,
    /// Replied.
    Finished,
}

impl FollowUserFlow {
    /// Whether `f` and `a` are how a follow request can start: replied at
    /// once, or asking whether the target exists.
    pub open spec fn opens(f: FollowUserFlow, a: Action) -> bool {
        match f {
            FollowUserFlow::Finished => a is Finish,
            FollowUserFlow::CheckingTarget { target, .. } => a == Action::Run(Query::UserExists(target)),
            _ => false,
        }
    }

    /// What answering `ev` leads to: the next state and action `r`.
    pub open spec fn steps_to(self, ev: Event, r: (FollowUserFlow, Action)) -> bool {
        match self {
            FollowUserFlow::CheckingTarget { follower, target } => match ev {
                Event::Flag(false) => r.0 is Finished && flow::fails_with(r.1, NOT_FOUND, "User not found"@),
                Event::Flag(true) => r.0 == (FollowUserFlow::CheckingFollow { follower, target })
                    && r.1 == Action::Run(Query::IsFollowing { follower, followed: target }),
                Event::Failed(_) => r.0 is Finished && flow::fails_as_storage(r.1, ev),
                _ => r.0 is Finished && flow::fails_unexpectedly(r.1),
            },
            FollowUserFlow::CheckingFollow { follower, target } => match ev {
                Event::Flag(true) => r.0 is Finished && flow::fails_with(r.1, CONFLICT, "Already following this user"@),
                Event::Flag(false) => r.0 == (FollowUserFlow::Inserting { follower, target })
                    && r.1 == Action::Run(Query::InsertFollow { follower, followed: target }),
                Event::Failed(_) => r.0 is Finished && flow::fails_as_storage(r.1, ev),
                _ => r.0 is Finished && flow::fails_unexpectedly(r.1),
            },
            FollowUserFlow::Inserting { follower, target } => match ev {
                Event::Done => {
                    &&& r.0 is Invalidating
                    &&& r.1 matches Action::Invalidate(ops)
                    &&& follow_invalidations(ops@, follower, target)
                },
                Event::Failed(_) => r.0 is Finished && flow::fails_as_storage(r.1, ev),
                _ => r.0 is Finished && flow::fails_unexpectedly(r.1),
            },
            FollowUserFlow::Invalidating => r.0 is Finished && flow::succeeds_with_message(
                r.1,
                "User followed successfully"@,
            ),
            FollowUserFlow::Finished => true,
        }
    }

    /// Nobody is ever on the way to following themself.
    pub open spec fn wf(self) -> bool {
        match self {
            FollowUserFlow::CheckingTarget { follower, target } => follower != target,
            FollowUserFlow::CheckingFollow { follower, target } => follower != target,
            FollowUserFlow::Inserting { follower, target } => follower != target,
            _ => true,
        }
    }

    /// Takes the answer to the last action. A missing target ends the
    /// request with 404 and an existing follow with 409; otherwise the
    /// follow is recorded, the affected cache entries are removed, and the
    /// request succeeds.
    pub fn resume(self, ev: Event) -> (r: (FollowUserFlow, Action))
        requires
            self.wf(),
            !(self is Finished),
        ensures
            r.0.wf(),
            r.1 matches Action::Run(Query::InsertFollow { follower, followed }) ==> follower != followed,
            self.steps_to(ev, r),
    {
        match self {
            FollowUserFlow::CheckingTarget { follower, target } => match ev {
                Event::Flag(exists) => {
                    if exists {
                        (
                            FollowUserFlow::CheckingFollow { follower, target },
                            Action::Run(Query::IsFollowing { follower, followed: target }),
                        )
                    } else {
                        (FollowUserFlow::Finished, fail(NOT_FOUND, "User not found"))
                    }
                },
                Event::Failed(m) => (FollowUserFlow::Finished, fail_owned(INTERNAL_SERVER_ERROR, m)),
                _ => (FollowUserFlow::Finished, fail_unexpected()),
            },
            FollowUserFlow::CheckingFollow { follower, target } => match ev {
                Event::Flag(already) => {
                    if already {
                        (FollowUserFlow::Finished, fail(CONFLICT, "Already following this user"))
                    } else {
                        (
                            FollowUserFlow::Inserting { follower, target },
                            Action::Run(Query::InsertFollow { follower, followed: target }),
                        )
                    }
                },
                Event::Failed(m) => (FollowUserFlow::Finished, fail_owned(INTERNAL_SERVER_ERROR, m)),
                _ => (FollowUserFlow::Finished, fail_unexpected()),
            },
            FollowUserFlow::Inserting { follower, target } => match ev {
                Event::Done => (FollowUserFlow::Invalidating, Action::Invalidate(follow_ops(follower, target))),
                Event::Failed(m) => (FollowUserFlow::Finished, fail_owned(INTERNAL_SERVER_ERROR, m)),
                _ => (FollowUserFlow::Finished, fail_unexpected()),
            },
            FollowUserFlow::Invalidating => (
                FollowUserFlow::Finished,
                succeed_with_message("User followed successfully"),
            ),
            FollowUserFlow::Finished => (FollowUserFlow::Finished, fail_unexpected()),
        }
    }
}

/// Starts a request of the caller to follow `target`. A rejected token ends
/// it with the token check's status, a subject that is no identifier with
/// 400, and so does following oneself; otherwise the target's existence is
/// checked first.
pub fn follow_user(auth: Result<Claims, u16>, target: u128) -> (r: (FollowUserFlow, Action))
    ensures
        FollowUserFlow::opens(r.0, r.1),
        r.0.wf(),
        auth matches Err(status) ==> r.0 is Finished && flow::fails_with(r.1, status, "Unauthorized access"@),
        auth matches Ok(c) ==> match ids::uuid_parse(c.sub@) {
            None => r.0 is Finished && flow::fails_with(r.1, BAD_REQUEST, "Invalid user ID"@),
            Some(follower) => if follower == target {
                r.0 is Finished && flow::fails_with(r.1, BAD_REQUEST, "You cannot follow yourself"@)
            } else {
                r.0 == (FollowUserFlow::CheckingTarget { follower, target }) && r.1 == Action::Run(
                    Query::UserExists(target),
                )
            },
        },
{
    let claims = match auth {
        Ok(c) => c,
        Err(status) => return (FollowUserFlow::Finished, fail(status, "Unauthorized access")),
    };
    let follower = match subject_id(&claims) {
        Some(id) => id,
        None => return (FollowUserFlow::Finished, fail(BAD_REQUEST, "Invalid user ID")),
    };
    if follower == target {
        return (FollowUserFlow::Finished, fail(BAD_REQUEST, "You cannot follow yourself"));
    }
    (FollowUserFlow::CheckingTarget { follower, target }, Action::Run(Query::UserExists(target)))
}

/// Where an unfollow request stands.
pub enum UnfollowUserFlow {
    /// Asked to remove the follow.
    Deleting { follower: u128, target: u128 },
    /// Asked to remove stale cache entries.
    Invalidating,
    /// Replied.
    Finished,
}

impl UnfollowUserFlow {
    /// Whether `f` and `a` are how an unfollow request can start: replied
    /// at once, or asking to remove the follow.
    pub open spec fn opens(f: UnfollowUserFlow, a: Action) -> bool {
        match f {
            UnfollowUserFlow::Finished => a is Finish,
            UnfollowUserFlow::Deleting { follower, target } => a == Action::Run(
                Query::DeleteFollow { follower, followed: target },
            ),
            _ => false,
        }
    }

    /// What answering `ev` leads to: the next state and action `r`.
    pub open spec fn steps_to(self, ev: Event, r: (UnfollowUserFlow, Action)) -> bool {
        match self {
            UnfollowUserFlow::Deleting { follower, target } => match ev {
                Event::Rows(n) => if n == 0 {
                    r.0 is Finished && flow::fails_with(r.1, NOT_FOUND, "You are not following this user"@)
                } else {
                    &&& r.0 is Invalidating
                    &&& r.1 matches Action::Invalidate(ops)
                    &&& follow_invalidations(ops@, follower, target)
                },
                Event::Failed(_) => r.0 is Finished && flow::fails_as_storage(r.1, ev),
                _ => r.0 is Finished && flow::fails_unexpectedly(r.1),
            },
            UnfollowUserFlow::Invalidating => r.0 is Finished && flow::succeeds_with_message(
                r.1,
                "User unfollowed successfully"@,
            ),
            UnfollowUserFlow::Finished => true,
        }
    }

    /// Takes the answer to the last action. When no follow was removed the
    /// request ends with 404; otherwise the affected cache entries are
    /// removed and the request succeeds.
    pub fn resume(self, ev: Event) -> (r: (UnfollowUserFlow, Action))
        requires
            !(self is Finished),
        ensures
            self.steps_to(ev, r),
    {
        match self {
            UnfollowUserFlow::Deleting { follower, target } => match ev {
                Event::Rows(n) => {
                    if n == 0 {
                        (UnfollowUserFlow::Finished, fail(NOT_FOUND, "You are not following this user"))
                    } else {
                        (UnfollowUserFlow::Invalidating, Action::Invalidate(follow_ops(follower, target)))
                    }
                },
                Event::Failed(m) => (UnfollowUserFlow::Finished, fail_owned(INTERNAL_SERVER_ERROR, m)),
                _ => (UnfollowUserFlow::Finished, fail_unexpected()),
            },
            UnfollowUserFlow::Invalidating => (
                UnfollowUserFlow::Finished,
                succeed_with_message("User unfollowed successfully"),
            ),
            UnfollowUserFlow::Finished => (UnfollowUserFlow::Finished, fail_unexpected()),
        }
    }
}

/// Starts a request of the caller to stop following `target`. A rejected
/// token ends it with the token check's status, a subject that is no
/// identifier with 400, and so does unfollowing oneself; otherwise the
/// follow is removed.
pub fn unfollow_user(auth: Result<Claims, u16>, target: u128) -> (r: (UnfollowUserFlow, Action))
    ensures
        UnfollowUserFlow::opens(r.0, r.1),
        auth matches Err(status) ==> r.0 is Finished && flow::fails_with(r.1, status, "Unauthorized access"@),
        auth matches Ok(c) ==> match ids::uuid_parse(c.sub@) {
            None => r.0 is Finished && flow::fails_with(r.1, BAD_REQUEST, "Invalid user ID"@),
            Some(follower) => if follower == target {
                r.0 is Finished && flow::fails_with(r.1, BAD_REQUEST, "You cannot unfollow yourself"@)
            } else {
                r.0 == (UnfollowUserFlow::Deleting { follower, target }) && r.1 == Action::Run(
                    Query::DeleteFollow { follower, followed: target },
                )
            },
        },
{
    let claims = match auth {
        Ok(c) => c,
        Err(status) => return (UnfollowUserFlow::Finished, fail(status, "Unauthorized access")),
    };
    let follower = match subject_id(&claims) {
        Some(id) => id,
        None => return (UnfollowUserFlow::Finished, fail(BAD_REQUEST, "Invalid user ID")),
    };
    if follower == target {
        return (UnfollowUserFlow::Finished, fail(BAD_REQUEST, "You cannot unfollow yourself"));
    }
    (
        UnfollowUserFlow::Deleting { follower, target },
        Action::Run(Query::DeleteFollow { follower, followed: target }),
    )
}

/// Starts the caller's own profile page: the account and a window of its
/// posts with their total, page and size taken as the request gives them.
/// A rejected token ends it with the token check's status and a subject
/// that is no identifier with 400, both without a message; a failed cache
/// read is ignored. Cached for 60 seconds under
/// `user:profile:<id>:p<page>:l<limit>`.
pub fn my_profile(pagination: PaginationParams, auth: Result<Claims, u16>) -> (r: (ListFlow, Action))
    ensures
        auth matches Err(status) ==> r.0 is Finished && flow::fails_bare(r.1, status),
        auth matches Ok(c) ==> match ids::uuid_parse(c.sub@) {
            None => r.0 is Finished && flow::fails_bare(r.1, BAD_REQUEST),
            Some(id) => read_flow::starts_listing(
                r,
                id,
                pagination::requested_page(pagination),
                pagination::requested_limit(pagination),
                keys::page_key("user:profile:"@, id, pagination::requested_page(pagination) as int, pagination::requested_limit(pagination) as int),
                60,
                None,
                Listing::PostsBy,
                true,
                true,
            ),
        },
{
    let claims = match auth {
        Ok(c) => c,
        Err(status) => return (ListFlow::Finished, fail_bare(status)),
    };
    let id = match subject_id(&claims) {
        Some(id) => id,
        None => return (ListFlow::Finished, fail_bare(BAD_REQUEST)),
    };
    let (page, limit) = pagination.requested();
    let key = crate::utils::cache::keys::profile_page_key(id, page, limit);
    start_listing(id, page, limit, key, 60, None, Listing::PostsBy, true, true)
}

/// Starts the profile page of account `target`, as `my_profile` does for
/// the caller.
pub fn profile(target: u128, pagination: PaginationParams, auth: Result<Claims, u16>) -> (r: (ListFlow, Action))
    ensures
        auth matches Err(status) ==> r.0 is Finished && flow::fails_bare(r.1, status),
        auth is Ok ==> read_flow::starts_listing(
            r,
            target,
            pagination::requested_page(pagination),
            pagination::requested_limit(pagination),
            keys::page_key("user:profile:"@, target, pagination::requested_page(pagination) as int, pagination::requested_limit(pagination) as int),
            60,
            None,
            Listing::PostsBy,
            true,
            true,
        ),
{
    match auth {
        Ok(_) => {},
        Err(status) => return (ListFlow::Finished, fail_bare(status)),
    }
    let (page, limit) = pagination.requested();
    let key = crate::utils::cache::keys::profile_page_key(target, page, limit);
    start_listing(target, page, limit, key, 60, None, Listing::PostsBy, true, true)
}

/// Starts the lookup of account `target`, cached for 300 seconds under
/// `user:<id>`. A rejected token ends it with the token check's status.
pub fn get_user(auth: Result<Claims, u16>, target: u128) -> (r: (ItemFlow, Action))
    ensures
        auth matches Err(status) ==> r.0 is Finished && flow::fails_with(r.1, status, "Unauthorized access"@),
        auth is Ok ==> read_flow::starts_lookup(r, keys::id_key("user:"@, target), Lookup::UserById(target), "User not found"@, Some(300)),
{
    match auth {
        Ok(_) => {},
        Err(status) => return (ItemFlow::Finished, fail(status, "Unauthorized access")),
    }
    start_lookup(crate::utils::cache::keys::user(target), Lookup::UserById(target), "User not found", Some(300))
}

/// Starts the lookup of the account named `username`, cached for 300
/// seconds under `user:username:<username>`. A rejected token ends it with
/// the token check's status.
pub fn get_user_by_username(auth: Result<Claims, u16>, username: String) -> (r: (ItemFlow, Action))
    ensures
        auth matches Err(status) ==> r.0 is Finished && flow::fails_with(r.1, status, "Unauthorized access"@),
        auth is Ok ==> read_flow::starts_lookup(r, "user:username:"@ + username@, Lookup::UserByUsername(username), "User not found"@, Some(300)),
{
    match auth {
        Ok(_) => {},
        Err(status) => return (ItemFlow::Finished, fail(status, "Unauthorized access")),
    }
    let key = crate::utils::cache::keys::user_by_username(username.as_str());
    start_lookup(key, Lookup::UserByUsername(username), "User not found", Some(300))
}

/// Starts the listing of the accounts following `target`, with the total;
/// page and size as the request gives them, cached for 60 seconds under
/// `followers:<id>:p<page>:l<limit>` with page and size taken as `u32`.
pub fn get_followers(target: u128, pagination: PaginationParams, auth: Result<Claims, u16>) -> (r: (ListFlow, Action))
    ensures
        auth matches Err(status) ==> r.0 is Finished && flow::fails_with(r.1, status, "Unauthorized access"@),
        auth is Ok ==> read_flow::starts_listing(
            r,
            target,
            pagination::requested_page(pagination),
            pagination::requested_limit(pagination),
            keys::page_key("followers:"@, target, (pagination::requested_page(pagination) as u32) as int, (pagination::requested_limit(pagination) as u32) as int),
            60,
            None,
            Listing::FollowersOf,
            false,
            false,
        ),
{
    match auth {
        Ok(_) => {},
        Err(status) => return (ListFlow::Finished, fail(status, "Unauthorized access")),
    }
    let (page, limit) = pagination.requested();
    let key = crate::utils::cache::keys::followers(target, key_number(page), key_number(limit));
    start_listing(target, page, limit, key, 60, None, Listing::FollowersOf, false, false)
}

/// Starts the listing of the accounts `target` follows, as
/// `get_followers` does, under `following:<id>:p<page>:l<limit>`.
pub fn get_following(target: u128, pagination: PaginationParams, auth: Result<Claims, u16>) -> (r: (ListFlow, Action))
    ensures
        auth matches Err(status) ==> r.0 is Finished && flow::fails_with(r.1, status, "Unauthorized access"@),
        auth is Ok ==> read_flow::starts_listing(
            r,
            target,
            pagination::requested_page(pagination),
            pagination::requested_limit(pagination),
            keys::page_key("following:"@, target, (pagination::requested_page(pagination) as u32) as int, (pagination::requested_limit(pagination) as u32) as int),
            60,
            None,
            Listing::FollowingOf,
            false,
            false,
        ),
{
    match auth {
        Ok(_) => {},
        Err(status) => return (ListFlow::Finished, fail(status, "Unauthorized access")),
    }
    let (page, limit) = pagination.requested();
    let key = crate::utils::cache::keys::following(target, key_number(page), key_number(limit));
    start_listing(target, page, limit, key, 60, None, Listing::FollowingOf, false, false)
}

/// Starts the listing of the caller's followers, led by the caller's
/// identifier and username (404 when the account is gone). Cached for 60
/// seconds under `followers:<id>:p<page>:l<limit>`, and the total under
/// `followers:count:<id>`.
pub fn get_my_followers(pagination: PaginationParams, auth: Result<Claims, u16>) -> (r: (ListFlow, Action))
    ensures
        auth matches Err(status) ==> r.0 is Finished && flow::fails_with(r.1, status, "Unauthorized access"@),
        auth matches Ok(c) ==> match ids::uuid_parse(c.sub@) {
            None => r.0 is Finished && flow::fails_with(r.1, BAD_REQUEST, "Invalid user ID"@),
            Some(id) => read_flow::starts_listing(
                r,
                id,
                pagination::requested_page(pagination),
                pagination::requested_limit(pagination),
                keys::page_key("followers:"@, id, (pagination::requested_page(pagination) as u32) as int, (pagination::requested_limit(pagination) as u32) as int),
                60,
                Some(keys::id_key("followers:count:"@, id)),
                Listing::FollowersOf,
                true,
                false,
            ),
        },
{
    let claims = match auth {
        Ok(c) => c,
        Err(status) => return (ListFlow::Finished, fail(status, "Unauthorized access")),
    };
    let id = match subject_id(&claims) {
        Some(id) => id,
        None => return (ListFlow::Finished, fail(BAD_REQUEST, "Invalid user ID")),
    };
    let (page, limit) = pagination.requested();
    let key = crate::utils::cache::keys::followers(id, key_number(page), key_number(limit));
    let count_key = crate::utils::cache::keys::follower_count(id);
    start_listing(id, page, limit, key, 60, Some(count_key), Listing::FollowersOf, true, false)
}

/// Starts the listing of the accounts the caller follows, as
/// `get_my_followers` does, under `following:<id>:p<page>:l<limit>` and
/// `following:count:<id>`.
pub fn get_my_following(pagination: PaginationParams, auth: Result<Claims, u16>) -> (r: (ListFlow, Action))
    ensures
        auth matches Err(status) ==> r.0 is Finished && flow::fails_with(r.1, status, "Unauthorized access"@),
        auth matches Ok(c) ==> match ids::uuid_parse(c.sub@) {
            None => r.0 is Finished && flow::fails_with(r.1, BAD_REQUEST, "Invalid user ID"@),
            Some(id) => read_flow::starts_listing(
                r,
                id,
                pagination::requested_page(pagination),
                pagination::requested_limit(pagination),
                keys::page_key("following:"@, id, (pagination::requested_page(pagination) as u32) as int, (pagination::requested_limit(pagination) as u32) as int),
                60,
                Some(keys::id_key("following:count:"@, id)),
                Listing::FollowingOf,
                true,
                false,
            ),
        },
{
    let claims = match auth {
        Ok(c) => c,
        Err(status) => return (ListFlow::Finished, fail(status, "Unauthorized access")),
    };
    let id = match subject_id(&claims) {
        Some(id) => id,
        None => return (ListFlow::Finished, fail(BAD_REQUEST, "Invalid user ID")),
    };
    let (page, limit) = pagination.requested();
    let key = crate::utils::cache::keys::following(id, key_number(page), key_number(limit));
    let count_key = crate::utils::cache::keys::following_count(id);
    start_listing(id, page, limit, key, 60, Some(count_key), Listing::FollowingOf, true, false)
}

/// After a follow or an unfollow, the removal patterns reach every cached
/// page of the target's followers, of the follower's followed accounts and
/// of the follower's feed, whatever page and size each was cached for; and
/// both follow counts are removed by their exact keys.
pub proof fn lemma_follow_change_clears_follow_caches(
    ops: Seq<CacheOp>,
    follower: u128,
    target: u128,
    page: int,
    limit: int,
)
    requires
        follow_invalidations(ops, follower, target),
    ensures
        ops[0] matches CacheOp::InvalidatePattern(p) && cache::star_match(p@, keys::page_key("followers:"@, target, page, limit)),
        ops[1] matches CacheOp::InvalidatePattern(p) && cache::star_match(p@, keys::page_key("following:"@, follower, page, limit)),
        ops[4] matches CacheOp::InvalidatePattern(p) && cache::star_match(p@, keys::page_key("feed:"@, follower, page, limit)),
        ops[2] matches CacheOp::Delete(k) && k@ == keys::id_key("followers:count:"@, target),
        ops[3] matches CacheOp::Delete(k) && k@ == keys::id_key("following:count:"@, follower),
{
    cache::lemma_pattern_prefixes_have_no_star();
    cache::lemma_id_pattern_covers_pages("followers:"@, target, page, limit);
    cache::lemma_id_pattern_covers_pages("following:"@, follower, page, limit);
    cache::lemma_id_pattern_covers_pages("feed:"@, follower, page, limit);
}

/// After an account update, the removal pattern reaches every cached
/// profile page of the account, whatever (signed) page and size it was
/// cached for, and the cached account is removed by its exact key.
pub proof fn lemma_account_update_clears_profile_pages(
    ops: Seq<CacheOp>,
    id: u128,
    new_username: Option<String>,
    page: int,
    limit: int,
)
    requires
        account_update_invalidations(ops, id, new_username),
    ensures
        ops[ops.len() - 1] matches CacheOp::InvalidatePattern(p) && cache::star_match(p@, keys::page_key("user:profile:"@, id, page, limit)),
        ops[0] matches CacheOp::Delete(k) && k@ == keys::id_key("user:"@, id),
{
    cache::lemma_pattern_prefixes_have_no_star();
    cache::lemma_id_pattern_covers_pages("user:profile:"@, id, page, limit);
}

/// Before an account is deleted, the removals reach its cached account and
/// every cached page of its profile, posts, followers, followed accounts
/// and feed, whatever page and size each was cached for.
pub proof fn lemma_account_deletion_clears_account_caches(ops: Seq<CacheOp>, id: u128, page: int, limit: int)
    requires
        account_deletion_invalidations(ops, id),
    ensures
        ops[0] matches CacheOp::InvalidatePattern(p) && cache::star_match(p@, keys::id_key("user:"@, id)),
        ops[1] matches CacheOp::InvalidatePattern(p) && cache::star_match(p@, keys::page_key("user:profile:"@, id, page, limit)),
        ops[2] matches CacheOp::InvalidatePattern(p) && cache::star_match(p@, keys::page_key("user:posts:"@, id, page, limit)),
        ops[3] matches CacheOp::InvalidatePattern(p) && cache::star_match(p@, keys::page_key("followers:"@, id, page, limit)),
        ops[4] matches CacheOp::InvalidatePattern(p) && cache::star_match(p@, keys::page_key("following:"@, id, page, limit)),
        ops[5] matches CacheOp::InvalidatePattern(p) && cache::star_match(p@, keys::page_key("feed:"@, id, page, limit)),
{
    cache::lemma_pattern_prefixes_have_no_star();
    cache::lemma_user_key_pattern_covers_itself(id);
    cache::lemma_id_pattern_covers_pages("user:profile:"@, id, page, limit);
    cache::lemma_id_pattern_covers_pages("user:posts:"@, id, page, limit);
    cache::lemma_id_pattern_covers_pages("followers:"@, id, page, limit);
    cache::lemma_id_pattern_covers_pages("following:"@, id, page, limit);
    cache::lemma_id_pattern_covers_pages("feed:"@, id, page, limit);
}

/// A registration that goes on to insert its account stores, with the
/// username it was asked for, a hash written with cost 12 that
/// `bcrypt::verify` accepts for the password it was registered with.
pub proof fn lemma_registered_password_is_accepted(
    payload: RegisterUser,
    hashed: Result<String, String>,
    r: (RegisterUserFlow, Action),
)
    requires
        password::hashes_to(payload.password@, HASH_COST, hashed),
        registers_after_hash(r, payload, hashed),
        r.0 is Inserting,
    ensures
        r.1 matches Action::Run(Query::InsertUser(u)) && {
            &&& u.username == payload.username
            &&& password::bcrypt_verify_result(payload.password@, u.password_hash@) == Ok::<bool, Seq<char>>(true)
            &&& u.password_hash@.subrange(0, 7) == password::bcrypt_prefix(HASH_COST)
        },
{
}

/// The token a login issues names its account: reading the subject of its
/// claims, as every authenticated handler does, gives back the account's
/// identifier.
pub proof fn lemma_login_token_names_account(c: Claims, id: u128, now: i64)
    requires
        issues_token_for(c, id, now),
    ensures
        ids::uuid_parse(c.sub@) == Some(id),
{
}

/// A registration inserts the account its request describes: once the
/// password is hashed, the inserted row has the request's username, email,
/// name and birthday unchanged, and the hash in place of the password.
pub proof fn lemma_registration_inserts_the_request(
    payload: RegisterUser,
    h: String,
    r: (RegisterUserFlow, Action),
)
    requires
        registers_after_hash(r, payload, Ok(h)),
    ensures
        r.0 is Inserting,
        r.1 matches Action::Run(Query::InsertUser(u)) && {
            &&& u.username == payload.username
            &&& u.email == payload.email
            &&& u.name == payload.name
            &&& u.birthday == payload.birthday
            &&& u.password_hash == h
        },
{
}

/// An account update sends the changes its request describes: unless
/// hashing a new password failed, the changes name the caller's account
/// and carry the request's username, email, name and birthday unchanged,
/// with the new password's hash in place of the password and no new hash
/// when no password is given.
pub proof fn lemma_update_sends_the_request(
    id: u128,
    payload: UpdateUser,
    hashed: Option<Result<String, String>>,
    r: (UpdateUserFlow, Action),
)
    requires
        updates_after_hash(r, id, payload, hashed),
        !(hashed matches Some(Err(_))),
    ensures
        r.0 == (UpdateUserFlow::Updating { id, new_username: payload.username }),
        r.1 matches Action::Run(Query::UpdateUser(c)) && {
            &&& c.id == id
            &&& c.username == payload.username
            &&& c.email == payload.email
            &&& c.name == payload.name
            &&& c.birthday == payload.birthday
            &&& c.password_hash == match hashed {
                Some(Ok(h)) => Some(h),
                _ => None::<String>,
            }
        },
{
}

} // verus!
