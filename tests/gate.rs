use inventory_manager::credential::{create_token_at, Claims};
use inventory_manager::gate::{
    authenticate_request, Authentication, Interceptor, Pipeline, Rejection, RoleAuthorization,
};
use inventory_manager::roles::UserRole;

const SECRET: &str = "gate-secret";
const NOW: i64 = 1_700_000_000;

fn bearer(role: &UserRole) -> String {
    let token = create_token_at(8, "ivy", role, SECRET.as_bytes(), 600, NOW).unwrap();
    format!("Bearer {}", token)
}

fn claims_with_role(role: &str) -> Claims {
    Claims {
        sub: "8".to_string(),
        username: "ivy".to_string(),
        role: role.to_string(),
        exp: 10,
        iat: 0,
    }
}

#[test]
fn missing_header_never_reaches_the_handler() {
    let auth = Authentication::new(SECRET.to_string());
    let mut handler_runs = 0;
    let outcome = auth.authenticate("/api/inventory", None, NOW);
    if outcome.is_ok() {
        handler_runs += 1;
    }
    assert_eq!(outcome.unwrap_err(), Rejection::MissingHeader);
    assert_eq!(handler_runs, 0);
}

#[test]
fn other_scheme_counts_as_missing() {
    let outcome = authenticate_request(SECRET, "/api/inventory", Some("Basic abc"), NOW);
    assert_eq!(outcome.unwrap_err(), Rejection::MissingHeader);
    let outcome = authenticate_request(SECRET, "/api/inventory", Some("bearer abc"), NOW);
    assert_eq!(outcome.unwrap_err(), Rejection::MissingHeader);
}

#[test]
fn login_path_is_let_through() {
    let outcome = authenticate_request(SECRET, "/api/auth/login", None, NOW);
    assert!(matches!(outcome, Ok(None)));
}

#[test]
fn bad_token_is_invalid() {
    let outcome = authenticate_request(SECRET, "/api/inventory", Some("Bearer nonsense"), NOW);
    assert_eq!(outcome.unwrap_err(), Rejection::InvalidToken);
    let header = bearer(&UserRole::User);
    let outcome = authenticate_request("other-secret", "/api/inventory", Some(&header), NOW);
    assert_eq!(outcome.unwrap_err(), Rejection::InvalidToken);
}

#[test]
fn expired_token_is_invalid_at_the_gate() {
    let header = bearer(&UserRole::User);
    let outcome = authenticate_request(SECRET, "/api/inventory", Some(&header), NOW + 600);
    assert_eq!(outcome.unwrap_err(), Rejection::InvalidToken);
}

#[test]
fn good_token_attaches_identity() {
    let header = bearer(&UserRole::Manager);
    let auth = Authentication::new(SECRET.to_string());
    let middleware = auth.new_transform(());
    let claims = middleware.check("/api/inventory", Some(&header), NOW + 1).unwrap().unwrap();
    assert_eq!(claims.username, "ivy");
    assert_eq!(claims.role, "manager");
}

#[test]
fn admin_passes_lists_without_admin() {
    let admin = claims_with_role("admin");
    assert!(RoleAuthorization::new(vec![UserRole::Manager]).authorize(Some(&admin)).is_ok());
    assert!(RoleAuthorization::new(vec![]).authorize(Some(&admin)).is_ok());
    assert!(RoleAuthorization::new(vec![UserRole::Admin]).authorize(Some(&admin)).is_ok());
}

#[test]
fn listed_admin_admits_nobody_else() {
    let gate = RoleAuthorization::new(vec![UserRole::Admin]);
    let manager = claims_with_role("manager");
    assert_eq!(gate.authorize(Some(&manager)), Err(Rejection::InsufficientPermissions));
}

#[test]
fn listed_role_is_admitted() {
    let gate = RoleAuthorization::new(vec![UserRole::Manager, UserRole::User]);
    assert!(gate.authorize(Some(&claims_with_role("USER"))).is_ok());
    let middleware = gate.new_transform(());
    assert!(middleware.check(Some(&claims_with_role("Manager"))).is_ok());
}

#[test]
fn unknown_role_counts_as_user() {
    let user_gate = RoleAuthorization::new(vec![UserRole::User]);
    assert!(user_gate.authorize(Some(&claims_with_role("auditor"))).is_ok());
    let manager_gate = RoleAuthorization::new(vec![UserRole::Manager]);
    assert_eq!(
        manager_gate.authorize(Some(&claims_with_role("auditor"))),
        Err(Rejection::InsufficientPermissions)
    );
}

#[test]
fn no_identity_needs_authentication() {
    let gate = RoleAuthorization::new(vec![UserRole::User]);
    assert_eq!(gate.authorize(None), Err(Rejection::AuthenticationRequired));
}

#[test]
fn rejection_messages_are_fixed() {
    assert_eq!(Rejection::MissingHeader.message(), "Authorization header missing");
    assert_eq!(Rejection::InvalidToken.message(), "Invalid token");
    assert_eq!(Rejection::InsufficientPermissions.message(), "Insufficient permissions");
    assert_eq!(Rejection::AuthenticationRequired.message(), "Authentication required");
}

fn admin_only() -> Pipeline {
    Pipeline::new(vec![
        Interceptor::Authenticate(Authentication::new(SECRET.to_string())),
        Interceptor::Authorize(RoleAuthorization::new(vec![UserRole::Admin])),
    ])
}

#[test]
fn pipeline_stops_at_missing_header() {
    let mut handler_runs = 0;
    let outcome = admin_only().run("/api/users", None, NOW);
    if outcome.is_ok() {
        handler_runs += 1;
    }
    assert_eq!(outcome.unwrap_err(), Rejection::MissingHeader);
    assert_eq!(handler_runs, 0);
}

#[test]
fn pipeline_checks_role_after_identity() {
    let manager = bearer(&UserRole::Manager);
    let outcome = admin_only().run("/api/users", Some(&manager), NOW + 1);
    assert_eq!(outcome.unwrap_err(), Rejection::InsufficientPermissions);
    let admin = bearer(&UserRole::Admin);
    let claims = admin_only().run("/api/users", Some(&admin), NOW + 1).unwrap().unwrap();
    assert_eq!(claims.role, "admin");
}

#[test]
fn pipeline_without_authentication_needs_identity() {
    let only_roles = Pipeline::new(vec![Interceptor::Authorize(RoleAuthorization::new(vec![UserRole::User]))]);
    let outcome = only_roles.run("/api/users", Some(&bearer(&UserRole::User)), NOW);
    assert_eq!(outcome.unwrap_err(), Rejection::AuthenticationRequired);
    let empty = Pipeline::new(vec![]);
    assert!(matches!(empty.run("/api/users", None, NOW), Ok(None)));
}
