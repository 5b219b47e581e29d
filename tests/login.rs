use inventory_manager::credential::validate_token_at;
use inventory_manager::ledger::shift_quantity;
use inventory_manager::login::{login, LoginFailure, StoredUser};
use inventory_manager::password::hash_password;
use inventory_manager::records::LoginCredentials;
use inventory_manager::roles::UserRole;

const SECRET: &[u8] = b"login-secret";
const NOW: i64 = 1_700_000_000;

fn credentials(password: &str) -> LoginCredentials {
    LoginCredentials { username: "admin".to_string(), password: password.to_string() }
}

#[test]
fn unknown_user_is_refused() {
    let r = login(None, &credentials("x"), SECRET, 60, NOW);
    assert_eq!(r.unwrap_err(), LoginFailure::InvalidCredentials);
}

#[test]
fn unreadable_hash_fails_verification() {
    let user = StoredUser {
        id: 1,
        username: "admin".to_string(),
        password_hash: "plain".to_string(),
        role: UserRole::Admin,
    };
    let r = login(Some(user), &credentials("x"), SECRET, 60, NOW);
    assert_eq!(r.unwrap_err(), LoginFailure::VerificationFailed);
}

#[test]
fn login_checks_password_then_issues_token() {
    let hash = hash_password("admin123").unwrap();
    let user = StoredUser {
        id: 1,
        username: "admin".to_string(),
        password_hash: hash,
        role: UserRole::Admin,
    };
    let wrong = login(Some(user.clone()), &credentials("admin124"), SECRET, 60, NOW);
    assert_eq!(wrong.unwrap_err(), LoginFailure::InvalidCredentials);
    let ok = login(Some(user.clone()), &credentials("admin123"), SECRET, 60, NOW).unwrap();
    assert_eq!(ok.user_id, 1);
    assert_eq!(ok.username, "admin");
    assert_eq!(ok.role, "admin");
    let claims = validate_token_at(&ok.token, SECRET, NOW + 1).unwrap();
    assert_eq!(claims.sub, "1");
    let failed = login(Some(user), &credentials("admin123"), SECRET, 60, -1);
    assert_eq!(failed.unwrap_err(), LoginFailure::TokenFailed);
}

#[test]
fn login_messages_are_fixed() {
    assert_eq!(LoginFailure::InvalidCredentials.message(), "Invalid username or password");
    assert_eq!(LoginFailure::VerificationFailed.message(), "Failed to verify password");
    assert_eq!(LoginFailure::TokenFailed.message(), "Failed to generate token");
}

#[test]
fn direct_quantity_shift() {
    assert_eq!(shift_quantity(10, -15), Some(-5));
    assert_eq!(shift_quantity(i32::MAX, 1), None);
}
