//! Creating the single login, checking a login attempt, the claims that go
//! into authentication tokens, and the decisions of the two authentication
//! layers.
use vstd::prelude::*;
use crate::ids::{key_create, is_alphanumeric};
use crate::text::contains_char;
use crate::trusted::{cookie_plain, cookie_strict, cookie_strict_max_age, strict_attributes, hashable, argon2_verdict, argon2_check_password, argon2_hash_password, uuid_v4_string, uuid_v4_shape};

verus! {

/// The length of the API key made with a new login.
pub const API_KEY_LEN: usize = 32;

/// The form that creates the login.
pub struct CreateLogin {
    pub username: String,
    pub password: String,
    pub confirm_password: String,
}

/// The stored login: the user name, the Argon2 hash of the password (a PHC
/// string) and the API key.
pub struct Login {
    pub username: String,
    pub password: String,
    pub api_key: String,
}

/// The login form.
pub struct LoginForm {
    pub username: String,
    pub password: String,
}

/// Whether a user name or password is acceptable: not empty and without
/// spaces.
pub open spec fn acceptable(s: Seq<char>) -> bool {
    s.len() > 0 && !s.contains(' ')
}

/// Whether both the user name and the password are acceptable.
pub fn credentials_acceptable(username: &str, password: &str) -> (r: bool)
    ensures
        r == (acceptable(username@) && acceptable(password@)),
{
    !contains_char(username, ' ') && !username.is_empty() && !contains_char(password, ' ')
        && !password.is_empty()
}

/// What a request to create the login comes to.
pub enum CreateLoginReply {
    /// A login exists already (answered 401).
    AlreadyExists,
    /// The new login, to be stored; the user is logged in.
    Created(Login),
    /// The password and its confirmation differ.
    PasswordsDiffer,
    /// The user name or password is empty or holds a space.
    Unacceptable,
}

/// Creates the login when none exists, the user name and password are
/// acceptable and the password is confirmed: the password is stored as an
/// Argon2 hash that verifies it, and a fresh API key of [`API_KEY_LEN`]
/// letters and digits is made.
pub fn create_login_handler(login_exists: bool, data: CreateLogin) -> (r: CreateLoginReply)
    requires
        hashable(data.password@),
    ensures
        login_exists ==> r is AlreadyExists,
        !login_exists && !(acceptable(data.username@) && acceptable(data.password@))
            ==> r is Unacceptable,
        !login_exists && acceptable(data.username@) && acceptable(data.password@)
            && data.password@ != data.confirm_password@ ==> r is PasswordsDiffer,
        !login_exists && acceptable(data.username@) && acceptable(data.password@)
            && data.password@ == data.confirm_password@ ==> r is Created,
        r matches CreateLoginReply::Created(l) ==> {
            &&& l.username@ == data.username@
            &&& argon2_verdict(data.password@, l.password@) == Some(true)
            &&& l.api_key@.len() == API_KEY_LEN
            &&& forall|i: int| 0 <= i < l.api_key@.len() ==> is_alphanumeric(#[trigger] l.api_key@[i])
        },
{
    if login_exists {
        CreateLoginReply::AlreadyExists
    } else if credentials_acceptable(data.username.as_str(), data.password.as_str()) {
        if data.password == data.confirm_password {
            let password_hash = argon2_hash_password(data.password.as_str());
            CreateLoginReply::Created(
                Login {
                    username: data.username,
                    password: password_hash,
                    api_key: key_create(API_KEY_LEN),
                },
            )
        } else {
            CreateLoginReply::PasswordsDiffer
        }
    } else {
        CreateLoginReply::Unacceptable
    }
}

/// What a login attempt comes to.
pub enum LoginReply {
    /// No login has been created yet (answered 401).
    NoLogin,
    /// The user name or password is empty or holds a space.
    Unacceptable,
    /// Wrong user name or password.
    Invalid,
    /// The stored password hash is not a PHC string.
    BadStoredHash,
    /// Logged in as this user.
    Success(String),
}

/// The answer to a login attempt, given the stored login (if any) and the
/// verdict of the password check.
pub open spec fn login_outcome(
    stored: Option<(Seq<char>, Seq<char>)>,
    username: Seq<char>,
    password: Seq<char>,
) -> LoginOutcome {
    match stored {
        None => LoginOutcome::NoLogin,
        Some((stored_user, stored_hash)) => if !(acceptable(username) && acceptable(password)) {
            LoginOutcome::Unacceptable
        } else if username != stored_user {
            LoginOutcome::Invalid
        } else {
            match argon2_verdict(password, stored_hash) {
                Some(true) => LoginOutcome::Success,
                Some(false) => LoginOutcome::Invalid,
                None => LoginOutcome::BadStoredHash,
            }
        },
    }
}

/// The kind of a [`LoginReply`].
pub enum LoginOutcome {
    NoLogin,
    Unacceptable,
    Invalid,
    BadStoredHash,
    Success,
}

/// The kind of a reply.
pub open spec fn outcome_of(r: LoginReply) -> LoginOutcome {
    match r {
        LoginReply::NoLogin => LoginOutcome::NoLogin,
        LoginReply::Unacceptable => LoginOutcome::Unacceptable,
        LoginReply::Invalid => LoginOutcome::Invalid,
        LoginReply::BadStoredHash => LoginOutcome::BadStoredHash,
        LoginReply::Success(_) => LoginOutcome::Success,
    }
}

/// The stored user name and hash of a login.
pub open spec fn stored_view(stored: Option<&Login>) -> Option<(Seq<char>, Seq<char>)> {
    match stored {
        Some(l) => Some((l.username@, l.password@)),
        None => None,
    }
}

/// Checks a login attempt against the stored login.
pub fn login_handler(stored: Option<&Login>, data: &LoginForm) -> (r: LoginReply)
    ensures
        outcome_of(r) == login_outcome(stored_view(stored), data.username@, data.password@),
        r matches LoginReply::Success(u) ==> u@ == data.username@,
{
    match stored {
        None => LoginReply::NoLogin,
        Some(login) => {
            if !credentials_acceptable(data.username.as_str(), data.password.as_str()) {
                LoginReply::Unacceptable
            } else if data.username != login.username {
                LoginReply::Invalid
            } else {
                match argon2_check_password(data.password.as_str(), login.password.as_str()) {
                    Some(true) => LoginReply::Success(data.username.clone()),
                    Some(false) => LoginReply::Invalid,
                    None => LoginReply::BadStoredHash,
                }
            }
        },
    }
}

/// A login that was just created accepts its own user name and password.
pub proof fn lemma_created_login_accepts(
    data_username: Seq<char>,
    data_password: Seq<char>,
    created_username: Seq<char>,
    created_hash: Seq<char>,
)
    requires
        acceptable(data_username),
        acceptable(data_password),
        created_username == data_username,
        argon2_verdict(data_password, created_hash) == Some(true),
    ensures
        login_outcome(Some((created_username, created_hash)), data_username, data_password)
            == LoginOutcome::Success,
{
}

/// A login attempt with a user name other than the stored one never
/// succeeds, whatever the password.
pub proof fn lemma_wrong_user_rejected(
    stored_user: Seq<char>,
    stored_hash: Seq<char>,
    username: Seq<char>,
    password: Seq<char>,
)
    requires
        username != stored_user,
    ensures
        login_outcome(Some((stored_user, stored_hash)), username, password)
            != LoginOutcome::Success,
{
}

/// Seconds that an authentication token stays valid (seven days).
pub const AUTH_TOKEN_SECS: u64 = 604800;

/// Seconds that a session token stays valid (two days).
pub const SESSION_TOKEN_SECS: u64 = 172800;

/// The claims of an authentication token: a random identifier, the user
/// name and the expiry time in seconds since the Unix epoch.
pub struct Claims {
    pub sub: String,
    pub un: String,
    pub exp: usize,
}

/// The claims of a session token: a random identifier and the expiry time.
pub struct SessionClaims {
    pub sub: String,
    pub exp: usize,
}

impl Claims {
    /// Claims for a user logging in at `now` (seconds since the Unix
    /// epoch), expiring seven days later.
    pub fn new(username: String, now: u64) -> (c: Claims)
        requires
            now + AUTH_TOKEN_SECS <= usize::MAX,
        ensures
            c.un@ == username@,
            c.exp == now + AUTH_TOKEN_SECS,
            uuid_v4_shape(c.sub@),
    {
        Claims { sub: uuid_v4_string(), un: username, exp: (now + AUTH_TOKEN_SECS) as usize }
    }
}

impl SessionClaims {
    /// Claims for a session that starts at `now` (seconds since the Unix
    /// epoch), expiring two days later.
    pub fn new(now: u64) -> (c: SessionClaims)
        requires
            now + SESSION_TOKEN_SECS <= usize::MAX,
        ensures
            c.exp == now + SESSION_TOKEN_SECS,
            uuid_v4_shape(c.sub@),
    {
        SessionClaims { sub: uuid_v4_string(), exp: (now + SESSION_TOKEN_SECS) as usize }
    }
}

/// What the layer in front of the control routes decides.
pub enum SessionCheck {
    /// The request goes through.
    Allow,
    /// The request goes through only if this `api-auth` header value is the
    /// stored API key.
    CheckApiKey(String),
    /// Answered 401.
    Deny,
}

/// The layer in front of the control routes: a valid session goes through;
/// without one, an `api-auth` header is checked against the API key; without
/// either the request is refused.
pub fn auth_session_layer(session_ok: bool, api_auth: Option<String>) -> (r: SessionCheck)
    ensures
        session_ok ==> r is Allow,
        !session_ok && api_auth is None ==> r is Deny,
        !session_ok && api_auth is Some ==> (r matches SessionCheck::CheckApiKey(h) && h@
            == api_auth->0@),
{
    if session_ok {
        SessionCheck::Allow
    } else {
        match api_auth {
            Some(h) => SessionCheck::CheckApiKey(h),
            None => SessionCheck::Deny,
        }
    }
}

/// Whether an `api-auth` header value is the stored API key.
pub fn api_key_matches(header: &String, api_key: &String) -> (r: bool)
    ensures
        r == (header@ == api_key@),
{
    *header == *api_key
}

/// What the layer in front of the pages decides.
pub enum GiveSession {
    /// The page is served.
    Pass,
    /// The page is served along with a new session cookie.
    PassWithNewSession,
    /// The browser is sent to the login page.
    RedirectToLogin,
}

/// The layer in front of the pages: a valid session goes through; a valid
/// authentication token without a session gets a new session; otherwise the
/// browser is sent to log in.
pub fn auth_give_session_layer(auth_ok: bool, session_ok: bool) -> (r: GiveSession)
    ensures
        session_ok ==> r is Pass,
        !session_ok && auth_ok ==> r is PassWithNewSession,
        !session_ok && !auth_ok ==> r is RedirectToLogin,
{
    if auth_ok || session_ok {
        if session_ok {
            GiveSession::Pass
        } else {
            GiveSession::PassWithNewSession
        }
    } else {
        GiveSession::RedirectToLogin
    }
}


/// How many days an authentication cookie is kept.
pub const AUTH_COOKIE_DAYS: u16 = 7;

/// The `Set-Cookie` value that carries an authentication token: HTTP-only,
/// same-site strict, on path `/`, secure when configured, kept for seven
/// days.
pub fn auth_cookie_builder(token: &str, secure_auth_cookie: bool) -> (r: String)
    ensures
        r@ == "AuthToken="@ + token@ + strict_attributes(secure_auth_cookie) + "; Max-Age="@
            + crate::text::decimal(604800),
{
    let r = cookie_strict_max_age("AuthToken", token, secure_auth_cookie, AUTH_COOKIE_DAYS);
    proof {
        reveal_strlit("AuthToken");
        reveal_strlit("AuthToken=");
        reveal_strlit("=");
        assert("AuthToken"@ + "="@ =~= "AuthToken="@);
        assert(r@ =~= "AuthToken="@ + token@ + strict_attributes(secure_auth_cookie) + "; Max-Age="@
            + crate::text::decimal(604800));
    }
    r
}

/// The `Set-Cookie` value that carries a session token: HTTP-only,
/// same-site strict, on path `/`, secure when configured, kept for the
/// browser session.
pub fn session_cookie_builder(token: &str, secure_auth_cookie: bool) -> (r: String)
    ensures
        r@ == "SessionToken="@ + token@ + strict_attributes(secure_auth_cookie),
{
    let r = cookie_strict("SessionToken", token, secure_auth_cookie);
    proof {
        reveal_strlit("SessionToken");
        reveal_strlit("SessionToken=");
        reveal_strlit("=");
        assert("SessionToken"@ + "="@ =~= "SessionToken="@);
        assert(r@ =~= "SessionToken="@ + token@ + strict_attributes(secure_auth_cookie));
    }
    r
}

/// The two `Set-Cookie` values of a logout, which overwrite both tokens
/// with `0`.
pub fn logout_handler() -> (r: (String, String))
    ensures
        r.0@ == "AuthToken=0"@,
        r.1@ == "SessionToken=0"@,
{
    let a = cookie_plain("AuthToken", "0");
    let b = cookie_plain("SessionToken", "0");
    proof {
        reveal_strlit("AuthToken");
        reveal_strlit("SessionToken");
        reveal_strlit("AuthToken=0");
        reveal_strlit("SessionToken=0");
        reveal_strlit("=");
        reveal_strlit("0");
        assert(a@ =~= "AuthToken=0"@);
        assert(b@ =~= "SessionToken=0"@);
    }
    (a, b)
}

} // verus!
