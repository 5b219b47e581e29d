use vstd::prelude::*;

use crate::roles::{role_name, UserRole};
use crate::text::{decimal_of, decimal_text};
use jsonwebtoken::errors::ErrorKind;
use jsonwebtoken::{Algorithm, DecodingKey, Validation};
use serde_json::Value;

verus! {

#[verifier::external_type_specification]
#[verifier::external_body]
pub struct ExTokenError(jsonwebtoken::errors::Error);

/// The identity a credential carries: subject (the user's id in decimal),
/// display name, role name, and expiry and issue times in seconds since the
/// Unix epoch.
#[derive(Debug, Clone)]
pub struct Claims {
    pub sub: String,
    pub username: String,
    pub role: String,
    pub exp: u64,
    pub iat: u64,
}

pub struct ClaimsView {
    pub sub: Seq<char>,
    pub username: Seq<char>,
    pub role: Seq<char>,
    pub exp: u64,
    pub iat: u64,
}

impl View for Claims {
    type V = ClaimsView;

    open spec fn view(&self) -> ClaimsView {
        ClaimsView {
            sub: self.sub@,
            username: self.username@,
            role: self.role@,
            exp: self.exp,
            iat: self.iat,
        }
    }
}

/// Why a credential could not be issued or verified.
#[derive(Debug, Clone)]
pub enum JwtError {
    TokenCreationError(String),
    TokenValidationError(String),
    TokenExpired,
    InvalidToken,
}

/// The claims as read back from a token's payload; a claim that is absent
/// or of the wrong JSON type reads as `None`.
#[derive(Debug, Clone)]
pub struct ClaimFields {
    pub sub: Option<String>,
    pub username: Option<String>,
    pub role: Option<String>,
    pub exp: Option<u64>,
    pub iat: Option<u64>,
}

/// How the token library classified a decoding failure: a token whose
/// structure or signature is wrong, or any other failure.
#[derive(Debug, Clone, Copy, PartialEq, Eq, Structural)]
pub enum TokenFault {
    Invalid,
    Other,
}

/// A decoding failure: its kind and the token library's message.
#[derive(Debug, Clone)]
pub struct DecodeFailure {
    pub kind: TokenFault,
    pub message: String,
}

/// The claims of `ClaimFields`, as plain values.
pub open spec fn fields_view(f: ClaimFields) -> (
    Option<Seq<char>>,
    Option<Seq<char>>,
    Option<Seq<char>>,
    Option<u64>,
    Option<u64>,
) {
    (text_view(f.sub), text_view(f.username), text_view(f.role), f.exp, f.iat)
}

pub open spec fn text_view(t: Option<String>) -> Option<Seq<char>> {
    match t {
        Some(s) => Some(s@),
        None => None,
    }
}

/// Whether a text holds at least two dots, as the three parts of a token
/// need.
pub open spec fn has_two_dots(s: Seq<char>) -> bool {
    exists|i: int, j: int| 0 <= i < j < s.len() && s[i] == '.' && s[j] == '.'
}

/// What decoding `token` under `secret` gives (HS256, expiry not checked):
/// the five claims as read from the payload, or the kind and message of the
/// failure.
pub uninterp spec fn decode_outcome(token: Seq<char>, secret: Seq<u8>) -> Result<
    (Option<Seq<char>>, Option<Seq<char>>, Option<Seq<char>>, Option<u64>, Option<u64>),
    (TokenFault, Seq<char>),
>;

/// The HS256-signed token that the token library makes of these claims
/// under this secret.
pub uninterp spec fn signed_token(
    sub: Seq<char>,
    username: Seq<char>,
    role: Seq<char>,
    exp: u64,
    iat: u64,
    secret: Seq<u8>,
) -> Seq<char>;

/// Relies on `jsonwebtoken::encode` with the default (HS256) header and an
/// HMAC key made from `secret`: the payload is a JSON object of the five
/// claims, and the token is determined by the claims and the secret. It
/// succeeds: the key's family matches the header's algorithm, a JSON value
/// always serialises, and HMAC signing cannot fail.
#[verifier::external_body]
fn encode_claims(claims: &Claims, secret: &[u8]) -> (r: Result<String, jsonwebtoken::errors::Error>)
    ensures
        r is Ok,
        r is Ok ==> r->Ok_0@ == signed_token(
            claims@.sub,
            claims@.username,
            claims@.role,
            claims@.exp,
            claims@.iat,
            secret@,
        ),
{
    let payload: serde_json::Value = [
        ("sub", serde_json::Value::from(claims.sub.as_str())),
        ("username", serde_json::Value::from(claims.username.as_str())),
        ("role", serde_json::Value::from(claims.role.as_str())),
        ("exp", serde_json::Value::from(claims.exp)),
        ("iat", serde_json::Value::from(claims.iat)),
    ].into_iter().collect();
    let key = jsonwebtoken::EncodingKey::from_secret(secret);
    jsonwebtoken::encode(&jsonwebtoken::Header::default(), &payload, &key)
}

/// Whether `f` holds exactly these claims.
pub open spec fn fields_hold(
    f: ClaimFields,
    sub: Seq<char>,
    username: Seq<char>,
    role: Seq<char>,
    exp: u64,
    iat: u64,
) -> bool {
    &&& f.sub is Some && f.sub->0@ == sub
    &&& f.username is Some && f.username->0@ == username
    &&& f.role is Some && f.role->0@ == role
    &&& f.exp == Some(exp)
    &&& f.iat == Some(iat)
}

/// Relies on `jsonwebtoken::decode` with HS256 and an HMAC key made from
/// `secret`, the expiry check switched off (the caller checks expiry against
/// its own clock): the outcome depends on the token and the secret alone. A
/// token with fewer than two dots is rejected as invalid before anything
/// else; a token that `jsonwebtoken::encode` made of claims under the same
/// secret decodes to those claims.
#[verifier::external_body]
fn decode_claims(token: &str, secret: &[u8]) -> (r: Result<ClaimFields, DecodeFailure>)
    ensures
        r is Ok <==> decode_outcome(token@, secret@) is Ok,
        r is Ok ==> decode_outcome(token@, secret@)->Ok_0 == fields_view(r->Ok_0),
        r is Err ==> decode_outcome(token@, secret@)->Err_0 == (r->Err_0.kind, r->Err_0.message@),
        !has_two_dots(token@) ==> r is Err && r->Err_0.kind == TokenFault::Invalid,
        forall|sub: Seq<char>, username: Seq<char>, role: Seq<char>, exp: u64, iat: u64|
            #[trigger] signed_token(sub, username, role, exp, iat, secret@) == token@ ==> r is Ok
                && fields_hold(r->Ok_0, sub, username, role, exp, iat),
{
    let mut v = Validation::new(Algorithm::HS256);
    v.validate_exp = false;
    match jsonwebtoken::decode::<Value>(token, &DecodingKey::from_secret(secret), &v) {
        Ok(d) => Ok(ClaimFields {
            sub: d.claims["sub"].as_str().map(String::from),
            username: d.claims["username"].as_str().map(String::from),
            role: d.claims["role"].as_str().map(String::from),
            exp: d.claims["exp"].as_u64(),
            iat: d.claims["iat"].as_u64(),
        }),
        Err(e) => Err(DecodeFailure { message: e.to_string(), kind: match e.kind() {
            ErrorKind::InvalidToken | ErrorKind::InvalidSignature => TokenFault::Invalid,
            _ => TokenFault::Other,
        } }),
    }
}

/// Relies on `chrono::Utc::now`: the current time in seconds since the
/// Unix epoch. Nothing is known of the value.
#[verifier::external_body]
fn now_timestamp() -> (r: i64) {
    chrono::Utc::now().timestamp()
}

/// Whether a credential can be issued at `now` with lifetime `ttl`: both
/// its issue and expiry times are non-negative and representable.
pub open spec fn issuable(now: int, ttl: int) -> bool {
    0 <= now && 0 <= now + ttl <= i64::MAX
}

/// The claims of a credential issued at `now` with lifetime `ttl`.
pub open spec fn issued_claims(user_id: int, username: Seq<char>, role: UserRole, ttl: int, now: int) -> ClaimsView {
    ClaimsView {
        sub: decimal_of(user_id),
        username,
        role: role_name(role),
        exp: (now + ttl) as u64,
        iat: now as u64,
    }
}

/// `token` is the credential issued at `now` for these inputs.
pub open spec fn issued(
    token: Seq<char>,
    user_id: int,
    username: Seq<char>,
    role: UserRole,
    secret: Seq<u8>,
    ttl: int,
    now: int,
) -> bool {
    let c = issued_claims(user_id, username, role, ttl, now);
    issuable(now, ttl) && token == signed_token(c.sub, c.username, c.role, c.exp, c.iat, secret)
}

/// Builds the claims of a credential issued at `now` that expires `ttl`
/// seconds later.
pub fn issue_claims(user_id: i64, username: &str, role: &UserRole, expiration: i64, now: i64) -> (r:
    Result<Claims, JwtError>)
    ensures
        issuable(now as int, expiration as int) <==> r is Ok,
        r is Ok ==> r->Ok_0@ == issued_claims(
            user_id as int,
            username@,
            *role,
            expiration as int,
            now as int,
        ),
        r is Err ==> r->Err_0 is TokenCreationError,
{
    if now < 0 {
        return Err(JwtError::TokenCreationError(String::from_str("issue time before the epoch")));
    }
    match now.checked_add(expiration) {
        Some(exp) => {
            if exp < 0 {
                return Err(JwtError::TokenCreationError(String::from_str("expiry before the epoch")));
            }
            Ok(Claims {
                sub: decimal_text(user_id),
                username: String::from_str(username),
                role: role.to_string(),
                exp: exp as u64,
                iat: now as u64,
            })
        },
        None => Err(JwtError::TokenCreationError(String::from_str("expiry out of range"))),
    }
}

/// Issues a signed credential at the given time. It succeeds exactly when
/// the issue and expiry times are representable.
pub fn create_token_at(
    user_id: i64,
    username: &str,
    role: &UserRole,
    secret: &[u8],
    expiration: i64,
    now: i64,
) -> (r: Result<String, JwtError>)
    ensures
        issuable(now as int, expiration as int) <==> r is Ok,
        r is Ok ==> issued(
            r->Ok_0@,
            user_id as int,
            username@,
            *role,
            secret@,
            expiration as int,
            now as int,
        ),
        r is Err ==> r->Err_0 is TokenCreationError,
{
    let claims = issue_claims(user_id, username, role, expiration, now)?;
    match encode_claims(&claims, secret) {
        Ok(token) => Ok(token),
        Err(_) => Err(JwtError::TokenCreationError(String::from_str("token encoding failed"))),
    }
}

/// Issues a signed credential now, valid for `expiration` seconds: the
/// result is what `create_token_at` gives at the clock reading taken.
pub fn create_token(user_id: i64, username: &str, role: &UserRole, secret: &[u8], expiration: i64) -> (r:
    Result<String, JwtError>)
    ensures
        exists|now: i64|
            {
                &&& issuable(now as int, expiration as int) <==> r is Ok
                &&& r is Ok ==> issued(
                    r->Ok_0@,
                    user_id as int,
                    username@,
                    *role,
                    secret@,
                    expiration as int,
                    now as int,
                )
            },
        r is Err ==> r->Err_0 is TokenCreationError,
{
    let now = now_timestamp();
    create_token_at(user_id, username, role, secret, expiration, now)
}

/// The outcome owed for claims read back from a token at time `now`:
/// expired when `now` has reached the expiry, else the claims.
pub open spec fn verdict_for(
    r: Result<Claims, JwtError>,
    sub: Seq<char>,
    username: Seq<char>,
    role: Seq<char>,
    exp: u64,
    iat: u64,
    now: int,
) -> bool {
    if now >= exp {
        r is Err && r->Err_0 is TokenExpired
    } else {
        r is Ok && r->Ok_0@ == ClaimsView { sub, username, role, exp, iat }
    }
}

/// The message of a token whose payload lacks a claim.
pub open spec fn missing_claim_message() -> Seq<char> {
    "missing or malformed claim"@
}

/// The outcome owed for claims read from a payload, at time `now`: all five
/// must be present, and then `verdict_for` decides.
pub open spec fn claims_verdict(
    fields: (Option<Seq<char>>, Option<Seq<char>>, Option<Seq<char>>, Option<u64>, Option<u64>),
    now: int,
    r: Result<Claims, JwtError>,
) -> bool {
    match fields {
        (Some(sub), Some(username), Some(role), Some(exp), Some(iat)) => verdict_for(
            r,
            sub,
            username,
            role,
            exp,
            iat,
            now,
        ),
        _ => r is Err && r->Err_0 is TokenValidationError && r->Err_0->TokenValidationError_0@
            == missing_claim_message(),
    }
}

/// Checks claims read back from a token against the clock: all five claims
/// must be present, and the credential is expired once `now` reaches its
/// expiry.
pub fn check_claims(fields: ClaimFields, now: i64) -> (r: Result<Claims, JwtError>)
    ensures
        claims_verdict(fields_view(fields), now as int, r),
        r is Ok ==> (now as int) < r->Ok_0@.exp,
{
    match fields {
        ClaimFields {
            sub: Some(sub),
            username: Some(username),
            role: Some(role),
            exp: Some(exp),
            iat: Some(iat),
        } => {
            if now >= 0 && now as u64 >= exp {
                Err(JwtError::TokenExpired)
            } else {
                Ok(Claims { sub, username, role, exp, iat })
            }
        },
        _ => Err(JwtError::TokenValidationError(String::from_str("missing or malformed claim"))),
    }
}

/// The outcome owed for a decoding outcome at time `now`: a token of wrong
/// structure or signature is `InvalidToken`; any other decoding failure is
/// `TokenValidationError` with the token library's message; decoded claims
/// go to `claims_verdict`.
pub open spec fn decoded_verdict(
    outcome: Result<
        (Option<Seq<char>>, Option<Seq<char>>, Option<Seq<char>>, Option<u64>, Option<u64>),
        (TokenFault, Seq<char>),
    >,
    now: int,
    r: Result<Claims, JwtError>,
) -> bool {
    match outcome {
        Ok(fields) => claims_verdict(fields, now, r),
        Err((TokenFault::Invalid, _)) => r is Err && r->Err_0 is InvalidToken,
        Err((TokenFault::Other, message)) => r is Err && r->Err_0 is TokenValidationError
            && r->Err_0->TokenValidationError_0@ == message,
    }
}

/// What verifying `token` under `secret` at time `now` owes: the outcome is
/// fixed by what decoding gives for the token and secret and by the clock;
/// a token without the three parts is `InvalidToken`; a token issued under
/// that secret yields its own claims until its expiry and `Expired` from
/// then on; an accepted credential has not yet expired.
pub open spec fn verification(token: Seq<char>, secret: Seq<u8>, now: int, r: Result<Claims, JwtError>) -> bool {
    &&& decoded_verdict(decode_outcome(token, secret), now, r)
    &&& !has_two_dots(token) ==> r is Err && r->Err_0 is InvalidToken
    &&& forall|sub: Seq<char>, username: Seq<char>, role: Seq<char>, exp: u64, iat: u64|
        #[trigger] signed_token(sub, username, role, exp, iat, secret) == token ==> verdict_for(
            r,
            sub,
            username,
            role,
            exp,
            iat,
            now,
        )
    &&& r is Ok ==> now < r->Ok_0@.exp
}

/// Verifies a credential at the given time. A failure of the signature or
/// of the token's structure is `InvalidToken`; any other decoding failure
/// is `TokenValidationError`.
pub fn validate_token_at(token: &str, secret: &[u8], now: i64) -> (r: Result<Claims, JwtError>)
    ensures
        verification(token@, secret@, now as int, r),
{
    match decode_claims(token, secret) {
        Ok(fields) => {
            let ghost f = fields;
            let r = check_claims(fields, now);
            assert forall|sub: Seq<char>, username: Seq<char>, role: Seq<char>, exp: u64, iat: u64|
                #[trigger] signed_token(sub, username, role, exp, iat, secret@) == token@ implies verdict_for(
                r,
                sub,
                username,
                role,
                exp,
                iat,
                now as int,
            ) by {
                assert(fields_hold(f, sub, username, role, exp, iat));
            }
            r
        },
        Err(failure) => match failure.kind {
            TokenFault::Invalid => Err(JwtError::InvalidToken),
            TokenFault::Other => Err(JwtError::TokenValidationError(failure.message)),
        },
    }
}

/// Verifies a credential against the current time: the result is what
/// `validate_token_at` gives at the clock reading taken.
pub fn validate_token(token: &str, secret: &[u8]) -> (r: Result<Claims, JwtError>)
    ensures
        exists|now: i64| verification(token@, secret@, now as int, r),
{
    let now = now_timestamp();
    validate_token_at(token, secret, now)
}

/// A credential verified under the secret it was issued with, before its
/// lifetime has elapsed, yields the identity, display name and role it was
/// issued for.
pub proof fn issued_token_verifies(
    token: Seq<char>,
    user_id: int,
    username: Seq<char>,
    role: UserRole,
    secret: Seq<u8>,
    ttl: int,
    issued_at: int,
    checked_at: int,
    outcome: Result<Claims, JwtError>,
)
    requires
        issued(token, user_id, username, role, secret, ttl, issued_at),
        verification(token, secret, checked_at, outcome),
        checked_at < issued_at + ttl,
    ensures
        outcome is Ok,
        outcome->Ok_0@.sub == decimal_of(user_id),
        outcome->Ok_0@.username == username,
        outcome->Ok_0@.role == role_name(role),
{
    let c = issued_claims(user_id, username, role, ttl, issued_at);
    assert(signed_token(c.sub, c.username, c.role, c.exp, c.iat, secret) == token);
}

/// A credential issued with lifetime zero fails as expired when verified at
/// its issue time or any later time.
pub proof fn zero_lifetime_expires(
    token: Seq<char>,
    user_id: int,
    username: Seq<char>,
    role: UserRole,
    secret: Seq<u8>,
    issued_at: int,
    checked_at: int,
    outcome: Result<Claims, JwtError>,
)
    requires
        issued(token, user_id, username, role, secret, 0, issued_at),
        verification(token, secret, checked_at, outcome),
        checked_at >= issued_at,
    ensures
        outcome is Err && outcome->Err_0 is TokenExpired,
{
    let c = issued_claims(user_id, username, role, 0, issued_at);
    assert(signed_token(c.sub, c.username, c.role, c.exp, c.iat, secret) == token);
}

} // verus!
