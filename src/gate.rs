use vstd::prelude::*;

use crate::credential::{issued, issued_token_verifies, validate_token_at, verification, Claims, JwtError};
use crate::roles::{role_admitted, role_name, role_named, UserRole};
use crate::text::{decimal_of, has_prefix, lower_of, same_text, starts_with_text};
use vstd::utf8::encode_utf8;

verus! {

/// Why a request was turned away. Each carries a fixed message and
/// never says which role was held or needed, nor why a token failed.
#[derive(Debug, Clone, Copy, PartialEq, Eq, Structural)]
pub enum Rejection {
    /// No `Authorization: Bearer <token>` header.
    MissingHeader,
    /// The bearer token failed verification, for whatever reason.
    InvalidToken,
    /// The caller's role is not admitted by the route's allow-list.
    InsufficientPermissions,
    /// Role authorization ran with no verified identity attached.
    AuthenticationRequired,
}

pub open spec fn rejection_message(r: Rejection) -> Seq<char> {
    match r {
        Rejection::MissingHeader => "Authorization header missing"@,
        Rejection::InvalidToken => "Invalid token"@,
        Rejection::InsufficientPermissions => "Insufficient permissions"@,
        Rejection::AuthenticationRequired => "Authentication required"@,
    }
}

impl Rejection {
    /// The user-facing message of the rejection.
    pub fn message(&self) -> (r: String)
        ensures
            r@ == rejection_message(*self),
    {
        match self {
            Rejection::MissingHeader => String::from_str("Authorization header missing"),
            Rejection::InvalidToken => String::from_str("Invalid token"),
            Rejection::InsufficientPermissions => String::from_str("Insufficient permissions"),
            Rejection::AuthenticationRequired => String::from_str("Authentication required"),
        }
    }
}

/// The public login path, which authentication lets through untouched.
pub open spec fn login_path() -> Seq<char> {
    "/api/auth/login"@
}

/// The only accepted authorization scheme, with its separating space.
pub open spec fn bearer_prefix() -> Seq<char> {
    "Bearer "@
}

/// How a credential check decides the request.
pub open spec fn token_verdict(v: Result<Claims, JwtError>) -> Result<Option<Claims>, Rejection> {
    match v {
        Ok(c) => Ok(Some(c)),
        Err(_) => Err(Rejection::InvalidToken),
    }
}

/// What authentication owes for a request to `path` carrying `header` as its
/// `Authorization` value, at time `now`: the login path passes with no
/// identity; a missing header or another scheme is `MissingHeader`; else
/// the token after the prefix is verified, and any failure is `InvalidToken`.
pub open spec fn authentication_outcome(
    secret: Seq<u8>,
    path: Seq<char>,
    header: Option<Seq<char>>,
    now: int,
    r: Result<Option<Claims>, Rejection>,
) -> bool {
    if path == login_path() {
        r == Ok::<Option<Claims>, Rejection>(None)
    } else {
        match header {
            None => r == Err::<Option<Claims>, Rejection>(Rejection::MissingHeader),
            Some(h) => if !has_prefix(h, bearer_prefix()) {
                r == Err::<Option<Claims>, Rejection>(Rejection::MissingHeader)
            } else {
                exists|v: Result<Claims, JwtError>|
                    verification(h.subrange(7, h.len() as int), secret, now, v) && r == token_verdict(
                        v,
                    )
            },
        }
    }
}

pub open spec fn header_view(header: Option<&str>) -> Option<Seq<char>> {
    match header {
        Some(h) => Some(h@),
        None => None,
    }
}

/// The authentication stage for a request, under the signing secret `secret`.
pub fn authenticate_request(secret: &str, path: &str, header: Option<&str>, now: i64) -> (r: Result<
    Option<Claims>,
    Rejection,
>)
    ensures
        authentication_outcome(encode_utf8(secret@), path@, header_view(header), now as int, r),
{
    proof {
        reveal_strlit("/api/auth/login");
        reveal_strlit("Bearer ");
    }
    if same_text(path, "/api/auth/login") {
        return Ok(None);
    }
    match header {
        None => Err(Rejection::MissingHeader),
        Some(h) => {
            if !starts_with_text(h, "Bearer ") {
                return Err(Rejection::MissingHeader);
            }
            assert(h@.len() >= 7);
            let token = h.substring_char(7, h.unicode_len());
            let key = secret.as_bytes_vec();
            let v = validate_token_at(token, key.as_slice(), now);
            let ghost gv = v;
            let r = match v {
                Ok(c) => Ok(Some(c)),
                Err(_) => Err(Rejection::InvalidToken),
            };
            assert(verification(h@.subrange(7, h@.len() as int), encode_utf8(secret@), now as int, gv));
            assert(r == token_verdict(gv));
            r
        },
    }
}

/// The role a caller's claims name, ignoring case; an unknown name counts
/// as a standard user.
pub open spec fn caller_role(role: Seq<char>) -> UserRole {
    match role_named(lower_of(role)) {
        Some(r) => r,
        None => UserRole::User,
    }
}

/// What role authorization owes for the identity attached by
/// authentication, against the allow-list `allowed`.
pub open spec fn authorization_outcome(
    identity: Option<Claims>,
    allowed: Seq<UserRole>,
) -> Result<(), Rejection> {
    match identity {
        None => Err(Rejection::AuthenticationRequired),
        Some(c) => if role_admitted(caller_role(c.role@), allowed) {
            Ok(())
        } else {
            Err(Rejection::InsufficientPermissions)
        },
    }
}

/// The role-authorization stage for an identity, against `allowed`.
pub fn authorize_identity(identity: Option<&Claims>, allowed: &Vec<UserRole>) -> (r: Result<(), Rejection>)
    ensures
        r == authorization_outcome(
            match identity {
                Some(c) => Some(*c),
                None => None,
            },
            allowed@,
        ),
{
    match identity {
        None => Err(Rejection::AuthenticationRequired),
        Some(c) => {
            let role = match UserRole::from_str(c.role.as_str()) {
                Some(r) => r,
                None => UserRole::User,
            };
            if role.satisfies(allowed) {
                Ok(())
            } else {
                Err(Rejection::InsufficientPermissions)
            }
        },
    }
}

/// Authentication configuration for a group of routes.
pub struct Authentication {
    pub jwt_secret: String,
}

impl Authentication {
    pub fn new(jwt_secret: String) -> (r: Self)
        ensures
            r.jwt_secret == jwt_secret,
    {
        Authentication { jwt_secret }
    }

    /// Wraps a service with authentication under this configuration.
    pub fn new_transform<S>(&self, service: S) -> (r: AuthenticationMiddleware<S>)
        ensures
            r.service == service,
            r.jwt_secret@ == self.jwt_secret@,
    {
        AuthenticationMiddleware { service, jwt_secret: self.jwt_secret.clone() }
    }

    /// Runs the authentication stage on a request.
    pub fn authenticate(&self, path: &str, header: Option<&str>, now: i64) -> (r: Result<
        Option<Claims>,
        Rejection,
    >)
        ensures
            authentication_outcome(encode_utf8(self.jwt_secret@), path@, header_view(header), now as int, r),
    {
        authenticate_request(self.jwt_secret.as_str(), path, header, now)
    }
}

/// A service behind the authentication stage.
pub struct AuthenticationMiddleware<S> {
    pub service: S,
    pub jwt_secret: String,
}

impl<S> AuthenticationMiddleware<S> {
    /// Decides whether a request may reach the wrapped service, and with
    /// which identity.
    pub fn check(&self, path: &str, header: Option<&str>, now: i64) -> (r: Result<
        Option<Claims>,
        Rejection,
    >)
        ensures
            authentication_outcome(encode_utf8(self.jwt_secret@), path@, header_view(header), now as int, r),
    {
        authenticate_request(self.jwt_secret.as_str(), path, header, now)
    }
}

/// Role authorization configuration for a group of routes.
pub struct RoleAuthorization {
    pub allowed_roles: Vec<UserRole>,
}

impl RoleAuthorization {
    pub fn new(allowed_roles: Vec<UserRole>) -> (r: Self)
        ensures
            r.allowed_roles@ == allowed_roles@,
    {
        RoleAuthorization { allowed_roles }
    }

    /// Wraps a service with role authorization under this configuration.
    pub fn new_transform<S>(&self, service: S) -> (r: RoleAuthorizationMiddleware<S>)
        ensures
            r.service == service,
            r.allowed_roles@ == self.allowed_roles@,
    {
        RoleAuthorizationMiddleware { service, allowed_roles: self.allowed_roles.clone() }
    }

    /// Runs the role-authorization stage on the identity attached earlier.
    pub fn authorize(&self, identity: Option<&Claims>) -> (r: Result<(), Rejection>)
        ensures
            r == authorization_outcome(
                match identity {
                    Some(c) => Some(*c),
                    None => None,
                },
                self.allowed_roles@,
            ),
    {
        authorize_identity(identity, &self.allowed_roles)
    }
}

/// A service behind the role-authorization stage.
pub struct RoleAuthorizationMiddleware<S> {
    pub service: S,
    pub allowed_roles: Vec<UserRole>,
}

impl<S> RoleAuthorizationMiddleware<S> {
    /// Decides whether the identity attached to a request may reach the
    /// wrapped service.
    pub fn check(&self, identity: Option<&Claims>) -> (r: Result<(), Rejection>)
        ensures
            r == authorization_outcome(
                match identity {
                    Some(c) => Some(*c),
                    None => None,
                },
                self.allowed_roles@,
            ),
    {
        authorize_identity(identity, &self.allowed_roles)
    }
}

/// One stage of a request pipeline.
pub enum Interceptor {
    Authenticate(Authentication),
    Authorize(RoleAuthorization),
}

/// The identity carried forward after authentication: a verified identity
/// replaces the one carried so far; the login path leaves it as it was.
pub open spec fn carried(found: Option<Claims>, identity: Option<Claims>) -> Option<Claims> {
    if found is Some {
        found
    } else {
        identity
    }
}

/// What running `stages` in order owes, starting with `identity` attached:
/// the first stage that rejects ends the run with its rejection; a run that
/// passes every stage yields the identity attached at the end.
pub open spec fn pipeline_outcome(
    stages: Seq<Interceptor>,
    identity: Option<Claims>,
    path: Seq<char>,
    header: Option<Seq<char>>,
    now: int,
    r: Result<Option<Claims>, Rejection>,
) -> bool
    decreases stages.len(),
{
    if stages.len() == 0 {
        r == Ok::<Option<Claims>, Rejection>(identity)
    } else {
        match stages[0] {
            Interceptor::Authenticate(a) => exists|s: Result<Option<Claims>, Rejection>|
                #[trigger] authentication_outcome(encode_utf8(a.jwt_secret@), path, header, now, s) && match s {
                    Err(e) => r == Err::<Option<Claims>, Rejection>(e),
                    Ok(found) => pipeline_outcome(
                        stages.drop_first(),
                        carried(found, identity),
                        path,
                        header,
                        now,
                        r,
                    ),
                },
            Interceptor::Authorize(z) => match authorization_outcome(identity, z.allowed_roles@) {
                Err(e) => r == Err::<Option<Claims>, Rejection>(e),
                Ok(_) => pipeline_outcome(stages.drop_first(), identity, path, header, now, r),
            },
        }
    }
}

/// An ordered list of interceptors, assembled once per group of routes and
/// run on every request before its handler.
pub struct Pipeline {
    pub stages: Vec<Interceptor>,
}

impl Pipeline {
    pub fn new(stages: Vec<Interceptor>) -> (r: Pipeline)
        ensures
            r.stages@ == stages@,
    {
        Pipeline { stages }
    }

    /// Runs the stages in order on a request. `Ok` carries the identity to
    /// attach; the handler runs only then.
    pub fn run(&self, path: &str, header: Option<&str>, now: i64) -> (r: Result<Option<Claims>, Rejection>)
        ensures
            pipeline_outcome(self.stages@, None, path@, header_view(header), now as int, r),
    {
        let n = self.stages.len();
        let ghost all = self.stages@;
        let ghost hv = header_view(header);
        let mut identity: Option<Claims> = None;
        let mut i: usize = 0;
        assert(all.subrange(0, n as int) =~= all);
        while i < n
            invariant
                n == all.len(),
                all == self.stages@,
                hv == header_view(header),
                i <= n,
                forall|r: Result<Option<Claims>, Rejection>|
                    #[trigger] pipeline_outcome(all.subrange(i as int, n as int), identity, path@, hv, now as int, r)
                        ==> pipeline_outcome(all, None, path@, hv, now as int, r),
            decreases n - i,
        {
            let ghost rest = all.subrange(i as int, n as int);
            let ghost tail = all.subrange(i + 1, n as int);
            assert(rest.drop_first() =~= tail);
            assert(rest[0] == all[i as int]);
            let ghost before = identity;
            match &self.stages[i] {
                Interceptor::Authenticate(a) => {
                    let s = a.authenticate(path, header, now);
                    let ghost gs = s;
                    match s {
                        Err(e) => {
                            let r: Result<Option<Claims>, Rejection> = Err(e);
                            assert(authentication_outcome(encode_utf8(a.jwt_secret@), path@, hv, now as int, gs));
                            assert(pipeline_outcome(rest, before, path@, hv, now as int, r));
                            return r;
                        },
                        Ok(found) => {
                            let ghost gfound = found;
                            if found.is_some() {
                                identity = found;
                            }
                            assert(identity == carried(gfound, before));
                            assert forall|r: Result<Option<Claims>, Rejection>|
                                #[trigger] pipeline_outcome(tail, identity, path@, hv, now as int, r) implies
                                pipeline_outcome(all, None, path@, hv, now as int, r) by {
                                assert(authentication_outcome(encode_utf8(a.jwt_secret@), path@, hv, now as int, Ok(gfound)));
                                assert(pipeline_outcome(rest, before, path@, hv, now as int, r));
                            }
                        },
                    }
                },
                Interceptor::Authorize(z) => {
                    match z.authorize(identity.as_ref()) {
                        Err(e) => {
                            let r: Result<Option<Claims>, Rejection> = Err(e);
                            assert(pipeline_outcome(rest, before, path@, hv, now as int, r));
                            return r;
                        },
                        Ok(()) => {
                            assert forall|r: Result<Option<Claims>, Rejection>|
                                #[trigger] pipeline_outcome(tail, identity, path@, hv, now as int, r) implies
                                pipeline_outcome(all, None, path@, hv, now as int, r) by {
                                assert(pipeline_outcome(rest, before, path@, hv, now as int, r));
                            }
                        },
                    }
                },
            }
            i = i + 1;
        }
        let r: Result<Option<Claims>, Rejection> = Ok(identity);
        assert(pipeline_outcome(all.subrange(n as int, n as int), identity, path@, hv, now as int, r));
        r
    }
}

/// A request to any path but the login path that carries no
/// `Authorization` header is turned away by authentication, so nothing
/// behind authentication runs for it.
pub proof fn missing_header_never_admitted(
    secret: Seq<u8>,
    path: Seq<char>,
    now: int,
    r: Result<Option<Claims>, Rejection>,
)
    requires
        path != login_path(),
        authentication_outcome(secret, path, None, now, r),
    ensures
        r == Err::<Option<Claims>, Rejection>(Rejection::MissingHeader),
{
}

/// An identity whose role is the override role passes role authorization
/// under every allow-list, including lists that do not name that role.
pub proof fn override_identity_admitted(c: Claims, allowed: Seq<UserRole>)
    requires
        caller_role(c.role@) == UserRole::Admin,
    ensures
        authorization_outcome(Some(c), allowed) == Ok::<(), Rejection>(()),
{
}

/// A pipeline that begins with authentication turns away a request without
/// an `Authorization` header to any path but the login path with
/// `MissingHeader`, whatever stages follow: none of them runs, nor the
/// handler.
pub proof fn pipeline_stops_missing_header(
    stages: Seq<Interceptor>,
    path: Seq<char>,
    now: int,
    r: Result<Option<Claims>, Rejection>,
)
    requires
        stages.len() > 0,
        stages[0] is Authenticate,
        path != login_path(),
        pipeline_outcome(stages, None, path, None, now, r),
    ensures
        r == Err::<Option<Claims>, Rejection>(Rejection::MissingHeader),
{
    let a = stages[0]->Authenticate_0;
    let s = choose|s: Result<Option<Claims>, Rejection>|
        #[trigger] authentication_outcome(encode_utf8(a.jwt_secret@), path, None, now, s) && match s {
            Err(e) => r == Err::<Option<Claims>, Rejection>(e),
            Ok(found) => pipeline_outcome(stages.drop_first(), carried(found, None), path, None, now, r),
        };
    assert(s == Err::<Option<Claims>, Rejection>(Rejection::MissingHeader));
}

/// A request to any path but the login path that carries a credential
/// issued under the same secret, as `Bearer <token>`, before the
/// credential's lifetime has elapsed, passes authentication with the
/// identity, display name and role the credential was issued for.
pub proof fn issued_credential_authenticates(
    secret: Seq<u8>,
    path: Seq<char>,
    token: Seq<char>,
    user_id: int,
    username: Seq<char>,
    role: UserRole,
    ttl: int,
    issued_at: int,
    now: int,
    r: Result<Option<Claims>, Rejection>,
)
    requires
        path != login_path(),
        issued(token, user_id, username, role, secret, ttl, issued_at),
        now < issued_at + ttl,
        authentication_outcome(secret, path, Some(bearer_prefix() + token), now, r),
    ensures
        r is Ok && r->Ok_0 is Some,
        r->Ok_0->0@.sub == decimal_of(user_id),
        r->Ok_0->0@.username == username,
        r->Ok_0->0@.role == role_name(role),
{
    reveal_strlit("Bearer ");
    let h = bearer_prefix() + token;
    assert(h.subrange(0, 7) =~= bearer_prefix());
    assert(h.subrange(7, h.len() as int) =~= token);
    let v = choose|v: Result<Claims, JwtError>|
        verification(h.subrange(7, h.len() as int), secret, now, v) && r == token_verdict(v);
    issued_token_verifies(token, user_id, username, role, secret, ttl, issued_at, now, v);
}

} // verus!
