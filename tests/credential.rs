use inventory_manager::credential::{
    check_claims, create_token, create_token_at, issue_claims, validate_token, validate_token_at,
    ClaimFields, JwtError,
};
use inventory_manager::roles::UserRole;

const SECRET: &[u8] = b"test-signing-secret";
const ISSUED_AT: i64 = 1_700_000_000;

#[test]
fn issued_token_verifies_with_same_identity() {
    let token = create_token_at(42, "alice", &UserRole::Manager, SECRET, 3600, ISSUED_AT).unwrap();
    let claims = validate_token_at(&token, SECRET, ISSUED_AT + 10).unwrap();
    assert_eq!(claims.sub, "42");
    assert_eq!(claims.username, "alice");
    assert_eq!(claims.role, "manager");
    assert_eq!(claims.iat, ISSUED_AT as u64);
    assert_eq!(claims.exp, (ISSUED_AT + 3600) as u64);
}

#[test]
fn token_has_three_parts() {
    let token = create_token_at(1, "bob", &UserRole::User, SECRET, 60, ISSUED_AT).unwrap();
    assert_eq!(token.split('.').count(), 3);
    assert_ne!(token, "bob");
}

#[test]
fn zero_lifetime_token_is_expired_later() {
    let token = create_token_at(5, "carol", &UserRole::Admin, SECRET, 0, ISSUED_AT).unwrap();
    let result = validate_token_at(&token, SECRET, ISSUED_AT + 1);
    assert!(matches!(result, Err(JwtError::TokenExpired)));
}

#[test]
fn token_expires_exactly_at_its_expiry() {
    let token = create_token_at(5, "carol", &UserRole::User, SECRET, 100, ISSUED_AT).unwrap();
    assert!(validate_token_at(&token, SECRET, ISSUED_AT + 99).is_ok());
    assert!(matches!(validate_token_at(&token, SECRET, ISSUED_AT + 100), Err(JwtError::TokenExpired)));
}

#[test]
fn wrong_secret_is_invalid() {
    let token = create_token_at(9, "dave", &UserRole::User, SECRET, 3600, ISSUED_AT).unwrap();
    let result = validate_token_at(&token, b"another-secret", ISSUED_AT);
    assert!(matches!(result, Err(JwtError::InvalidToken)));
}

#[test]
fn garbage_is_invalid() {
    let result = validate_token_at("not-a-token", SECRET, ISSUED_AT);
    assert!(matches!(result, Err(JwtError::InvalidToken)));
}

#[test]
fn forged_signature_is_invalid() {
    let result = validate_token_at("eyJhbGciOiJIUzI1NiJ9.!!!.c2ln", SECRET, ISSUED_AT);
    assert!(matches!(result, Err(JwtError::InvalidToken)));
}

#[test]
fn token_without_three_parts_is_invalid() {
    assert!(matches!(validate_token("abc", b"secret"), Err(JwtError::InvalidToken)));
    assert!(matches!(validate_token_at("abc.def", SECRET, ISSUED_AT), Err(JwtError::InvalidToken)));
}

#[test]
fn verification_repeats_its_result() {
    let token = create_token_at(12, "mia", &UserRole::User, SECRET, 100, ISSUED_AT).unwrap();
    let first = validate_token_at(&token, SECRET, ISSUED_AT + 5).unwrap();
    let second = validate_token_at(&token, SECRET, ISSUED_AT + 5).unwrap();
    assert_eq!((first.sub, first.username, first.role, first.exp, first.iat),
               (second.sub, second.username, second.role, second.exp, second.iat));
}

#[test]
fn equal_issuances_give_equal_tokens() {
    let a = create_token_at(12, "mia", &UserRole::User, SECRET, 100, ISSUED_AT).unwrap();
    let b = create_token_at(12, "mia", &UserRole::User, SECRET, 100, ISSUED_AT).unwrap();
    assert_eq!(a, b);
}

#[test]
fn extreme_identities_print_in_decimal() {
    assert_eq!(issue_claims(i64::MIN, "n", &UserRole::User, 1, 0).unwrap().sub, "-9223372036854775808");
    assert_eq!(issue_claims(i64::MAX, "n", &UserRole::User, 1, 0).unwrap().sub, "9223372036854775807");
    assert_eq!(issue_claims(0, "n", &UserRole::User, 1, 0).unwrap().sub, "0");
}

#[test]
fn negative_issue_time_cannot_issue() {
    let result = create_token_at(1, "eve", &UserRole::User, SECRET, 60, -5);
    assert!(matches!(result, Err(JwtError::TokenCreationError(_))));
    let result = create_token_at(1, "eve", &UserRole::User, SECRET, -100, 50);
    assert!(matches!(result, Err(JwtError::TokenCreationError(_))));
    let result = create_token_at(1, "eve", &UserRole::User, SECRET, i64::MAX, 50);
    assert!(matches!(result, Err(JwtError::TokenCreationError(_))));
}

#[test]
fn issued_claims_hold_the_inputs() {
    let claims = issue_claims(-17, "frank", &UserRole::Admin, 30, 1000).unwrap();
    assert_eq!(claims.sub, "-17");
    assert_eq!(claims.username, "frank");
    assert_eq!(claims.role, "admin");
    assert_eq!(claims.iat, 1000);
    assert_eq!(claims.exp, 1030);
}

#[test]
fn missing_claim_is_a_validation_error() {
    let fields = ClaimFields {
        sub: Some("1".to_string()),
        username: None,
        role: Some("user".to_string()),
        exp: Some(10),
        iat: Some(0),
    };
    assert!(matches!(check_claims(fields, 5), Err(JwtError::TokenValidationError(_))));
}

#[test]
fn claims_checked_against_clock() {
    let fields = ClaimFields {
        sub: Some("1".to_string()),
        username: Some("gina".to_string()),
        role: Some("user".to_string()),
        exp: Some(10),
        iat: Some(0),
    };
    assert!(check_claims(fields.clone(), 9).is_ok());
    assert!(matches!(check_claims(fields, 10), Err(JwtError::TokenExpired)));
}

#[test]
fn token_made_now_verifies_now() {
    let token = create_token(3, "hank", &UserRole::User, SECRET, 3600).unwrap();
    let claims = validate_token(&token, SECRET).unwrap();
    assert_eq!(claims.sub, "3");
    assert_eq!(claims.role, "user");
}

fn foreign_token(alg: jsonwebtoken::Algorithm, with_identity: bool) -> String {
    let mut entries = vec![
        ("exp", serde_json::Value::from((ISSUED_AT + 60) as u64)),
        ("iat", serde_json::Value::from(ISSUED_AT as u64)),
    ];
    if with_identity {
        entries.push(("sub", serde_json::Value::from("1")));
        entries.push(("username", serde_json::Value::from("kim")));
        entries.push(("role", serde_json::Value::from("user")));
    }
    let payload: serde_json::Value = entries.into_iter().collect();
    let key = jsonwebtoken::EncodingKey::from_secret(SECRET);
    jsonwebtoken::encode(&jsonwebtoken::Header::new(alg), &payload, &key).unwrap()
}

#[test]
fn wrong_algorithm_is_a_validation_error() {
    let token = foreign_token(jsonwebtoken::Algorithm::HS384, true);
    match validate_token_at(&token, SECRET, ISSUED_AT) {
        Err(JwtError::TokenValidationError(message)) => assert!(!message.is_empty()),
        other => panic!("unexpected {:?}", other),
    }
}

#[test]
fn token_without_identity_claims_is_a_validation_error() {
    let token = foreign_token(jsonwebtoken::Algorithm::HS256, false);
    let result = validate_token_at(&token, SECRET, ISSUED_AT);
    assert!(matches!(result, Err(JwtError::TokenValidationError(_))));
}

#[test]
fn foreign_token_with_all_claims_verifies() {
    let token = foreign_token(jsonwebtoken::Algorithm::HS256, true);
    let claims = validate_token_at(&token, SECRET, ISSUED_AT).unwrap();
    assert_eq!(claims.username, "kim");
}

#[test]
fn empty_secret_round_trip() {
    let token = create_token_at(77, "lee", &UserRole::Admin, b"", 10, ISSUED_AT).unwrap();
    let claims = validate_token_at(&token, b"", ISSUED_AT + 9).unwrap();
    assert_eq!(claims.sub, "77");
    assert_eq!(claims.role, "admin");
    assert!(matches!(validate_token_at(&token, b"x", ISSUED_AT), Err(JwtError::InvalidToken)));
}
