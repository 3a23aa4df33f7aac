//! The decisions of the account services: what a login or a registration
//! comes to, given what the user store answered.

use crate::forms::{LoginViewObject, RegisterViewObject};
use crate::text::opt_text;
use crate::token::{encoded_token, issue_token, IssueError};
use vstd::prelude::*;
use vstd::utf8::encode_utf8;

verus! {

/// How long a token handed out at login or registration lives, in seconds.
pub const SESSION_SECONDS: i64 = 3600;

/// What the account services read of a stored user.
#[derive(Debug, Clone, PartialEq, Eq)]
pub struct User {
    pub id: String,
    pub username: String,
    pub password_hash: String,
    pub nickname: Option<String>,
    pub email: Option<String>,
    pub role: String,
}

/// What is stored of a new user.
#[derive(Debug, Clone, PartialEq, Eq)]
pub struct CreateUserData {
    pub username: String,
    pub password_hash: String,
}

/// Why a login or a registration failed.
#[derive(Debug, Clone, PartialEq, Eq)]
pub enum AuthServiceError {
    /// The user store failed; the text says how.
    DatabaseError(String),
    /// The stored hash could not be checked; the text says why.
    BcryptError(String),
    /// No token could be issued.
    JwtError(IssueError),
    InvalidCredentials,
    UserAlreadyExists,
    PasswordHashError,
}

/// Mathematical value of [`AuthServiceError`].
pub enum AuthServiceErrorView {
    DatabaseError(Seq<char>),
    BcryptError(Seq<char>),
    JwtError(IssueError),
    InvalidCredentials,
    UserAlreadyExists,
    PasswordHashError,
}

impl View for AuthServiceError {
    type V = AuthServiceErrorView;

    open spec fn view(&self) -> AuthServiceErrorView {
        match *self {
            AuthServiceError::DatabaseError(detail) => AuthServiceErrorView::DatabaseError(detail@),
            AuthServiceError::BcryptError(detail) => AuthServiceErrorView::BcryptError(detail@),
            AuthServiceError::JwtError(e) => AuthServiceErrorView::JwtError(e),
            AuthServiceError::InvalidCredentials => AuthServiceErrorView::InvalidCredentials,
            AuthServiceError::UserAlreadyExists => AuthServiceErrorView::UserAlreadyExists,
            AuthServiceError::PasswordHashError => AuthServiceErrorView::PasswordHashError,
        }
    }
}

/// The text of an error, as it is logged and shown.
pub open spec fn error_text(e: AuthServiceErrorView) -> Seq<char> {
    match e {
        AuthServiceErrorView::DatabaseError(detail) => "Database error: "@ + detail,
        AuthServiceErrorView::BcryptError(detail) => "Bcrypt error: "@ + detail,
        AuthServiceErrorView::JwtError(IssueError::InvalidExpiration) =>
            "JWT error: InvalidExpiration"@,
        AuthServiceErrorView::JwtError(IssueError::Encoding) => "JWT error: Encoding"@,
        AuthServiceErrorView::InvalidCredentials => "Invalid username or password"@,
        AuthServiceErrorView::UserAlreadyExists => "Username already exists"@,
        AuthServiceErrorView::PasswordHashError => "Failed to hash password"@,
    }
}

impl AuthServiceError {
    /// The text of the error.
    pub fn message(&self) -> (text: String)
        ensures
            text@ == error_text(self@),
    {
        match self {
            AuthServiceError::DatabaseError(detail) => String::from_str("Database error: ").concat(
                detail.as_str(),
            ),
            AuthServiceError::BcryptError(detail) => String::from_str("Bcrypt error: ").concat(
                detail.as_str(),
            ),
            AuthServiceError::JwtError(IssueError::InvalidExpiration) => String::from_str(
                "JWT error: InvalidExpiration",
            ),
            AuthServiceError::JwtError(IssueError::Encoding) => String::from_str(
                "JWT error: Encoding",
            ),
            AuthServiceError::InvalidCredentials => String::from_str(
                "Invalid username or password",
            ),
            AuthServiceError::UserAlreadyExists => String::from_str("Username already exists"),
            AuthServiceError::PasswordHashError => String::from_str("Failed to hash password"),
        }
    }
}

/// The answer to a login.
#[derive(Debug, Clone, PartialEq, Eq)]
pub struct AuthResponseViewObject {
    pub user_id: String,
    pub username: String,
    pub nickname: Option<String>,
    pub access_token: String,
    pub token_type: String,
    pub expires_in: i64,
    pub email: Option<String>,
    pub role: Option<String>,
}

/// Mathematical value of [`AuthResponseViewObject`].
pub struct AuthResponseView {
    pub user_id: Seq<char>,
    pub username: Seq<char>,
    pub nickname: Option<Seq<char>>,
    pub access_token: Seq<char>,
    pub token_type: Seq<char>,
    pub expires_in: i64,
    pub email: Option<Seq<char>>,
    pub role: Option<Seq<char>>,
}

impl View for AuthResponseViewObject {
    type V = AuthResponseView;

    open spec fn view(&self) -> AuthResponseView {
        AuthResponseView {
            user_id: self.user_id@,
            username: self.username@,
            nickname: opt_text(self.nickname),
            access_token: self.access_token@,
            token_type: self.token_type@,
            expires_in: self.expires_in,
            email: opt_text(self.email),
            role: opt_text(self.role),
        }
    }
}

/// The answer to a registration.
#[derive(Debug, Clone, PartialEq, Eq)]
pub struct LoginResponseViewObject {
    pub user_id: String,
    pub username: String,
    pub access_token: String,
    pub token_type: String,
    pub expires_in: i64,
}

/// Mathematical value of [`LoginResponseViewObject`].
pub struct LoginResponseView {
    pub user_id: Seq<char>,
    pub username: Seq<char>,
    pub access_token: Seq<char>,
    pub token_type: Seq<char>,
    pub expires_in: i64,
}

impl View for LoginResponseViewObject {
    type V = LoginResponseView;

    open spec fn view(&self) -> LoginResponseView {
        LoginResponseView {
            user_id: self.user_id@,
            username: self.username@,
            access_token: self.access_token@,
            token_type: self.token_type@,
            expires_in: self.expires_in,
        }
    }
}

/// Mathematical value of [`User`].
pub struct UserView {
    pub id: Seq<char>,
    pub username: Seq<char>,
    pub password_hash: Seq<char>,
    pub nickname: Option<Seq<char>>,
    pub email: Option<Seq<char>>,
    pub role: Seq<char>,
}

impl View for User {
    type V = UserView;

    open spec fn view(&self) -> UserView {
        UserView {
            id: self.id@,
            username: self.username@,
            password_hash: self.password_hash@,
            nickname: opt_text(self.nickname),
            email: opt_text(self.email),
            role: self.role@,
        }
    }
}

/// What the user store answered to a lookup: a user, none, or the text of
/// its failure.
pub open spec fn lookup_view(found: Result<Option<User>, String>) -> Result<
    Option<UserView>,
    Seq<char>,
> {
    match found {
        Ok(Some(user)) => Ok(Some(user@)),
        Ok(None) => Ok(None),
        Err(detail) => Err(detail@),
    }
}

/// What the user store answered to an insertion.
pub open spec fn creation_view(created: Result<User, String>) -> Result<UserView, Seq<char>> {
    match created {
        Ok(user) => Ok(user@),
        Err(detail) => Err(detail@),
    }
}

/// What `bcrypt::verify` yields for a password and a stored hash: whether
/// they match, or the `Debug` form of the error.
pub uninterp spec fn bcrypt_check(password: Seq<char>, hash: Seq<char>) -> Result<bool, Seq<char>>;

/// View of what checking a password returned.
pub open spec fn check_view(r: Result<bool, String>) -> Result<bool, Seq<char>> {
    match r {
        Ok(b) => Ok(b),
        Err(detail) => Err(detail@),
    }
}

/// Calls `bcrypt::verify` on a password and a stored hash. The contract
/// claims that the result depends on the two texts alone; an error is
/// handed out in its `Debug` form.
#[verifier::external_body]
fn check_password(password: &str, hash: &str) -> (r: Result<bool, String>)
    ensures
        check_view(r) == bcrypt_check(password@, hash@),
{
    match bcrypt::verify(password, hash) {
        Ok(matches) => Ok(matches),
        Err(e) => Err(format!("{:?}", e)),
    }
}

/// Calls `bcrypt::hash` on a password with the crate's default cost. The
/// salt is drawn at random, so nothing is claimed of the hash; `None`
/// stands for an error.
#[verifier::external_body]
fn hash_password(password: &str) -> (r: Option<String>) {
    bcrypt::hash(password, bcrypt::DEFAULT_COST).ok()
}

/// What a login comes to. A failure of the store is reported as it is; an
/// unknown user and a wrong password are not told apart; a hash that
/// cannot be checked and a token that cannot be issued have errors of
/// their own. Otherwise the answer names the user and carries a bearer
/// token of [`SESSION_SECONDS`].
pub open spec fn login_outcome(
    found: Result<Option<UserView>, Seq<char>>,
    checked: Result<bool, Seq<char>>,
    token: Result<Seq<char>, IssueError>,
) -> Result<AuthResponseView, AuthServiceErrorView> {
    match found {
        Err(detail) => Err(AuthServiceErrorView::DatabaseError(detail)),
        Ok(None) => Err(AuthServiceErrorView::InvalidCredentials),
        Ok(Some(user)) => match checked {
            Err(detail) => Err(AuthServiceErrorView::BcryptError(detail)),
            Ok(false) => Err(AuthServiceErrorView::InvalidCredentials),
            Ok(true) => match token {
                Err(e) => Err(AuthServiceErrorView::JwtError(e)),
                Ok(access_token) => Ok(
                    AuthResponseView {
                        user_id: user.id,
                        username: user.username,
                        nickname: user.nickname,
                        access_token,
                        token_type: "bearer"@,
                        expires_in: SESSION_SECONDS,
                        email: user.email,
                        role: Some(user.role),
                    },
                ),
            },
        },
    }
}

/// View of what a login returned.
pub open spec fn login_view(r: Result<AuthResponseViewObject, AuthServiceError>) -> Result<
    AuthResponseView,
    AuthServiceErrorView,
> {
    match r {
        Ok(answer) => Ok(answer@),
        Err(e) => Err(e@),
    }
}

/// View of what a registration returned.
pub open spec fn registration_view(r: Result<LoginResponseViewObject, AuthServiceError>) -> Result<
    LoginResponseView,
    AuthServiceErrorView,
> {
    match r {
        Ok(answer) => Ok(answer@),
        Err(e) => Err(e@),
    }
}

/// The token of a session that starts at `now`.
pub open spec fn session_token(user: UserView, secret: Seq<char>, now: i64) -> Result<
    Seq<char>,
    IssueError,
> {
    crate::token::issued(
        now,
        SESSION_SECONDS,
        encoded_token(
            user.id,
            user.username,
            (now + SESSION_SECONDS) as i64,
            encode_utf8(secret),
        ),
    )
}

/// What checking a password comes to: nothing to object to if it matched,
/// and else the error the login ends with.
pub open spec fn password_verdict(checked: Result<bool, Seq<char>>) -> Result<
    (),
    AuthServiceErrorView,
> {
    match checked {
        Err(detail) => Err(AuthServiceErrorView::BcryptError(detail)),
        Ok(false) => Err(AuthServiceErrorView::InvalidCredentials),
        Ok(true) => Ok(()),
    }
}

/// View of a verdict on a password.
pub open spec fn verdict_view(r: Result<(), AuthServiceError>) -> Result<(), AuthServiceErrorView> {
    match r {
        Ok(()) => Ok(()),
        Err(e) => Err(e@),
    }
}

/// Judges the result of checking a password against the stored hash.
pub fn judge_password(checked: Result<bool, String>) -> (r: Result<(), AuthServiceError>)
    ensures
        verdict_view(r) == password_verdict(check_view(checked)),
{
    match checked {
        Err(detail) => Err(AuthServiceError::BcryptError(detail)),
        Ok(false) => Err(AuthServiceError::InvalidCredentials),
        Ok(true) => Ok(()),
    }
}

/// The answer to the login of a user whose password matched, from the
/// result of issuing the token.
pub fn grant_login(user: User, token: Result<String, IssueError>) -> (r: Result<
    AuthResponseViewObject,
    AuthServiceError,
>)
    ensures
        login_view(r) == login_outcome(
            Ok(Some(user@)),
            Ok(true),
            crate::token::issue_view(token),
        ),
{
    match token {
        Err(e) => Err(AuthServiceError::JwtError(e)),
        Ok(access_token) => Ok(
            AuthResponseViewObject {
                user_id: user.id,
                username: user.username,
                nickname: user.nickname,
                access_token,
                token_type: "bearer".to_owned(),
                expires_in: SESSION_SECONDS,
                email: user.email,
                role: Some(user.role),
            },
        ),
    }
}

/// Decides on a login, given what the user store answered to the lookup
/// of the user name: the password is checked against the stored hash, and
/// a token of [`SESSION_SECONDS`] is issued if it matches.
pub fn login_service(
    data: &LoginViewObject,
    found: Result<Option<User>, String>,
    secret: &str,
    now: i64,
) -> (r: Result<AuthResponseViewObject, AuthServiceError>)
    ensures
        login_view(r) == (match lookup_view(found) {
            Err(detail) => Err(AuthServiceErrorView::DatabaseError(detail)),
            Ok(None) => Err(AuthServiceErrorView::InvalidCredentials),
            Ok(Some(user)) => login_outcome(
                Ok(Some(user)),
                bcrypt_check(data.password@, user.password_hash),
                session_token(user, secret@, now),
            ),
        }),
{
    let user = match found {
        Err(detail) => { return Err(AuthServiceError::DatabaseError(detail)); },
        Ok(None) => { return Err(AuthServiceError::InvalidCredentials); },
        Ok(Some(user)) => user,
    };
    match judge_password(check_password(data.password.as_str(), user.password_hash.as_str())) {
        Err(e) => { return Err(e); },
        Ok(()) => {},
    }
    let token = issue_token(
        user.id.as_str(),
        user.username.as_str(),
        secret,
        now,
        SESSION_SECONDS,
    );
    grant_login(user, token)
}

/// What the first half of a registration comes to, given the hash of the
/// password if one could be computed: the data of the user to store,
/// unless the store failed, the name is taken or no hash was to be had.
pub open spec fn registration_plan(
    username: Seq<char>,
    existing: Result<Option<UserView>, Seq<char>>,
    hashed: Option<Seq<char>>,
) -> Result<(Seq<char>, Seq<char>), AuthServiceErrorView> {
    match existing {
        Err(detail) => Err(AuthServiceErrorView::DatabaseError(detail)),
        Ok(Some(_)) => Err(AuthServiceErrorView::UserAlreadyExists),
        Ok(None) => match hashed {
            None => Err(AuthServiceErrorView::PasswordHashError),
            Some(hash) => Ok((username, hash)),
        },
    }
}

/// View of a plan: the user name and the hash to store, or the error.
pub open spec fn plan_view(r: Result<CreateUserData, AuthServiceError>) -> Result<
    (Seq<char>, Seq<char>),
    AuthServiceErrorView,
> {
    match r {
        Ok(data) => Ok((data.username@, data.password_hash@)),
        Err(e) => Err(e@),
    }
}

/// Plans a registration from the answer of the store and the hash.
pub fn plan_registration(
    data: &RegisterViewObject,
    existing: Result<Option<User>, String>,
    hashed: Option<String>,
) -> (r: Result<CreateUserData, AuthServiceError>)
    ensures
        plan_view(r) == registration_plan(data.username@, lookup_view(existing), opt_text(hashed)),
{
    match existing {
        Err(detail) => Err(AuthServiceError::DatabaseError(detail)),
        Ok(Some(_)) => Err(AuthServiceError::UserAlreadyExists),
        Ok(None) => match hashed {
            None => Err(AuthServiceError::PasswordHashError),
            Some(password_hash) => Ok(
                CreateUserData { username: data.username.clone(), password_hash },
            ),
        },
    }
}

/// First half of a registration, given what the user store answered to
/// the lookup of the user name: hashes the password with a fresh salt and
/// says what to store. The outcome is that of [`plan_registration`] for
/// whatever the hashing gave.
pub fn register_service(data: &RegisterViewObject, existing: Result<Option<User>, String>) -> (r:
    Result<CreateUserData, AuthServiceError>)
    ensures
        exists|hashed: Option<Seq<char>>|
            plan_view(r) == registration_plan(data.username@, lookup_view(existing), hashed),
{
    let hashed = match &existing {
        Ok(None) => hash_password(data.password.as_str()),
        _ => None,
    };
    let ghost h = opt_text(hashed);
    let r = plan_registration(data, existing, hashed);
    assert(plan_view(r) == registration_plan(data.username@, lookup_view(existing), h));
    r
}

/// What the second half of a registration comes to.
pub open spec fn registration_outcome(
    created: Result<UserView, Seq<char>>,
    token: Result<Seq<char>, IssueError>,
) -> Result<LoginResponseView, AuthServiceErrorView> {
    match created {
        Err(detail) => Err(AuthServiceErrorView::DatabaseError(detail)),
        Ok(user) => match token {
            Err(e) => Err(AuthServiceErrorView::JwtError(e)),
            Ok(access_token) => Ok(
                LoginResponseView {
                    user_id: user.id,
                    username: user.username,
                    access_token,
                    token_type: "bearer"@,
                    expires_in: SESSION_SECONDS,
                },
            ),
        },
    }
}

/// The answer to a registration, from what the user store answered to
/// the insertion and the result of issuing the token.
pub fn grant_registration(created: Result<User, String>, token: Result<String, IssueError>) -> (r:
    Result<LoginResponseViewObject, AuthServiceError>)
    ensures
        registration_view(r) == registration_outcome(
            creation_view(created),
            crate::token::issue_view(token),
        ),
{
    let user = match created {
        Err(detail) => { return Err(AuthServiceError::DatabaseError(detail)); },
        Ok(user) => user,
    };
    match token {
        Err(e) => Err(AuthServiceError::JwtError(e)),
        Ok(access_token) => Ok(
            LoginResponseViewObject {
                user_id: user.id,
                username: user.username,
                access_token,
                token_type: "bearer".to_owned(),
                expires_in: SESSION_SECONDS,
            },
        ),
    }
}

/// Second half of a registration, given what the user store answered to
/// the insertion: issues the token of the new user.
pub fn complete_registration(created: Result<User, String>, secret: &str, now: i64) -> (r: Result<
    LoginResponseViewObject,
    AuthServiceError,
>)
    ensures
        registration_view(r) == (match creation_view(created) {
            Err(detail) => Err(AuthServiceErrorView::DatabaseError(detail)),
            Ok(user) => registration_outcome(Ok(user), session_token(user, secret@, now)),
        }),
{
    match created {
        Err(detail) => Err(AuthServiceError::DatabaseError(detail)),
        Ok(user) => {
            let token = issue_token(
                user.id.as_str(),
                user.username.as_str(),
                secret,
                now,
                SESSION_SECONDS,
            );
            grant_registration(Ok(user), token)
        },
    }
}

} // verus!
