use vstd::prelude::*;

use crate::credential::{create_token_at, issuable, issued};
use crate::password::{argon2_accepts, phc_parses, verify_password};
use crate::records::{AuthResponse, LoginCredentials};
use crate::roles::{role_name, UserRole};

verus! {

/// The stored account that a login names, as the store returned it.
#[derive(Debug, Clone)]
pub struct StoredUser {
    pub id: i64,
    pub username: String,
    pub password_hash: String,
    pub role: UserRole,
}

/// Why a login failed.
#[derive(Debug, Clone, Copy, PartialEq, Eq, Structural)]
pub enum LoginFailure {
    /// Unknown user or wrong password; the two are not told apart.
    InvalidCredentials,
    /// The stored password hash could not be read.
    VerificationFailed,
    /// The credential could not be issued.
    TokenFailed,
}

pub open spec fn login_failure_message(f: LoginFailure) -> Seq<char> {
    match f {
        LoginFailure::InvalidCredentials => "Invalid username or password"@,
        LoginFailure::VerificationFailed => "Failed to verify password"@,
        LoginFailure::TokenFailed => "Failed to generate token"@,
    }
}

impl LoginFailure {
    /// The user-facing message of the failure.
    pub fn message(&self) -> (r: String)
        ensures
            r@ == login_failure_message(*self),
    {
        match self {
            LoginFailure::InvalidCredentials => String::from_str("Invalid username or password"),
            LoginFailure::VerificationFailed => String::from_str("Failed to verify password"),
            LoginFailure::TokenFailed => String::from_str("Failed to generate token"),
        }
    }
}

/// Decides a login at time `now`: `user` is the account found under the
/// given username, if any. The password is checked against the stored
/// hash, and on a match a credential valid for `expiration` seconds is
/// issued under `secret`; that succeeds whenever the credential's times are
/// representable.
pub fn login(
    user: Option<StoredUser>,
    credentials: &LoginCredentials,
    secret: &[u8],
    expiration: i64,
    now: i64,
) -> (r: Result<AuthResponse, LoginFailure>)
    ensures
        user is None ==> r == Err::<AuthResponse, LoginFailure>(LoginFailure::InvalidCredentials),
        user is Some && !phc_parses(user->0.password_hash@) ==> r == Err::<AuthResponse, LoginFailure>(
            LoginFailure::VerificationFailed,
        ),
        user is Some && phc_parses(user->0.password_hash@) && !argon2_accepts(
            credentials.password@,
            user->0.password_hash@,
        ) ==> r == Err::<AuthResponse, LoginFailure>(LoginFailure::InvalidCredentials),
        user is Some && phc_parses(user->0.password_hash@) && argon2_accepts(
            credentials.password@,
            user->0.password_hash@,
        ) && issuable(now as int, expiration as int) ==> r is Ok,
        r is Ok ==> ({
            let u = user->0;
            &&& user is Some
            &&& argon2_accepts(credentials.password@, u.password_hash@)
            &&& issued(r->Ok_0.token@, u.id as int, u.username@, u.role, secret@, expiration as int, now as int)
            &&& r->Ok_0.user_id == u.id
            &&& r->Ok_0.username == u.username
            &&& r->Ok_0.role@ == role_name(u.role)
        }),
        r == Err::<AuthResponse, LoginFailure>(LoginFailure::TokenFailed) ==> !issuable(
            now as int,
            expiration as int,
        ),
{
    let user = match user {
        Some(u) => u,
        None => return Err(LoginFailure::InvalidCredentials),
    };
    let matched = match verify_password(credentials.password.as_str(), user.password_hash.as_str()) {
        Ok(m) => m,
        Err(_) => return Err(LoginFailure::VerificationFailed),
    };
    if !matched {
        return Err(LoginFailure::InvalidCredentials);
    }
    let token = match create_token_at(user.id, user.username.as_str(), &user.role, secret, expiration, now) {
        Ok(t) => t,
        Err(_) => return Err(LoginFailure::TokenFailed),
    };
    Ok(AuthResponse::new(token, user.id, user.username, &user.role))
}

} // verus!
