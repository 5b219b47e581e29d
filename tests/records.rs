use inventory_manager::numeric::{parse_i64, parse_u16};
use inventory_manager::password::{hash_password, verify_password, PasswordError};
use inventory_manager::records::{
    AuthResponse, Config, LowStockQuery, RecentTransactionsQuery, UpdateCategory, UpdateUser,
};
use inventory_manager::roles::UserRole;

#[test]
fn config_defaults_fill_absent_settings() {
    let config = Config::from_settings(None, None, None, None, None);
    assert_eq!(config.database_url, "inventory.db");
    assert_eq!(config.jwt_secret, "your_jwt_secret_key");
    assert_eq!(config.jwt_expiration, 86400);
    assert_eq!(config.server_host, "0.0.0.0");
    assert_eq!(config.server_port, 8080);
}

#[test]
fn config_reads_given_settings() {
    let config = Config::from_settings(
        Some("stock.db".to_string()),
        Some("s3".to_string()),
        Some("120".to_string()),
        Some("127.0.0.1".to_string()),
        Some("9000".to_string()),
    );
    assert_eq!(config.database_url, "stock.db");
    assert_eq!(config.jwt_secret, "s3");
    assert_eq!(config.jwt_expiration, 120);
    assert_eq!(config.server_host, "127.0.0.1");
    assert_eq!(config.server_port, 9000);
}

#[test]
fn config_falls_back_on_unreadable_numbers() {
    let config = Config::from_settings(None, None, Some("a day".to_string()), None, Some("70000".to_string()));
    assert_eq!(config.jwt_expiration, 86400);
    assert_eq!(config.server_port, 8080);
}

#[test]
fn integers_parse_as_rust_does() {
    assert_eq!(parse_i64("0"), Some(0));
    assert_eq!(parse_i64("+15"), Some(15));
    assert_eq!(parse_i64("-15"), Some(-15));
    assert_eq!(parse_i64("9223372036854775807"), Some(i64::MAX));
    assert_eq!(parse_i64("-9223372036854775808"), Some(i64::MIN));
    assert_eq!(parse_i64("9223372036854775808"), None);
    assert_eq!(parse_i64("99999999999999999999999"), None);
    assert_eq!(parse_i64(""), None);
    assert_eq!(parse_i64("-"), None);
    assert_eq!(parse_i64(" 1"), None);
    assert_eq!(parse_i64("1x"), None);
    assert_eq!(parse_u16("65535"), Some(65535));
    assert_eq!(parse_u16("65536"), None);
    assert_eq!(parse_u16("-0"), None);
    assert_eq!(parse_u16("+8"), Some(8));
}

#[test]
fn auth_response_names_the_role() {
    let r = AuthResponse::new("t".to_string(), 4, "jo".to_string(), &UserRole::Manager);
    assert_eq!(r.role, "manager");
    assert_eq!(r.user_id, 4);
}

#[test]
fn query_defaults() {
    assert_eq!(LowStockQuery { threshold: None }.threshold_or_default(), 10);
    assert_eq!(LowStockQuery { threshold: Some(3) }.threshold_or_default(), 3);
    assert_eq!(RecentTransactionsQuery { limit: None }.limit_or_default(), 20);
    assert_eq!(RecentTransactionsQuery { limit: Some(5) }.limit_or_default(), 5);
}

#[test]
fn empty_updates_change_nothing() {
    assert!(!UpdateUser { username: None, email: None, role: None }.has_changes());
    assert!(UpdateUser { username: None, email: None, role: Some(UserRole::User) }.has_changes());
    assert!(!UpdateCategory { name: None, description: None }.has_changes());
    assert!(UpdateCategory { name: Some("tools".to_string()), description: None }.has_changes());
}

#[test]
fn malformed_stored_hash_is_a_verification_error() {
    let result = verify_password("pw", "not a phc string");
    assert!(matches!(result, Err(PasswordError::VerificationError(_))));
}

#[test]
fn hashed_password_verifies() {
    let hash = hash_password("s3cret!").unwrap();
    assert_ne!(hash, "s3cret!");
    assert!(hash.starts_with("$argon2"));
    assert_eq!(verify_password("s3cret!", &hash).unwrap(), true);
    assert_eq!(verify_password("wrong", &hash).unwrap(), false);
}
